//! The authentication interceptor: it carries the node's credential and
//! renders it as the header value attached to every outgoing RPC request.

use vstd::prelude::*;
use crate::text::{hex_encode, hex_of};

verus! {

/// Carrier of the optional node credential (a macaroon, as raw bytes).
#[derive(Clone)]
pub struct Interceptor {
    pub macaroon: Option<Vec<u8>>,
}

impl Interceptor {
    /// An interceptor holding the given credential, if any.
    pub fn new(macaroon: Option<Vec<u8>>) -> (s: Interceptor)
        ensures
            s.macaroon == macaroon,
    {
        Interceptor { macaroon }
    }

    /// The header value sent with each request: the credential bytes as
    /// lowercase hexadecimal, or nothing when no credential was given.
    pub fn macaroon_hex(&self) -> (r: Option<String>)
        ensures
            match self.macaroon {
                Some(m) => r matches Some(h) && h@ == hex_of(m@),
                None => r is None,
            },
    {
        match &self.macaroon {
            Some(m) => Some(hex_encode(m.as_slice())),
            None => None,
        }
    }
}

} // verus!
