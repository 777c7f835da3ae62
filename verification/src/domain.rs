//! Domain values returned by the node's RPC operations, as plain data.

use vstd::prelude::*;

verus! {

/// Status of an outgoing payment.
#[derive(Clone, Copy, Debug, PartialEq, Eq, Structural)]
pub enum PaymentStatus {
    Unknown,
    InFlight,
    Succeeded,
    Failed,
}

/// Reason reported for a failed payment; `None` when the payment did not
/// fail or the node reported no reason.
#[derive(Clone, Copy, Debug, PartialEq, Eq, Structural)]
pub enum PaymentFailureReason {
    FailureReasonNone,
    FailureReasonTimeout,
    FailureReasonNoRoute,
    FailureReasonError,
    FailureReasonIncorrectPaymentDetails,
    FailureReasonInsufficientBalance,
}

/// The fields of one payment record that the exporter reads.
#[derive(Clone, Copy, Debug, PartialEq, Eq, Structural)]
pub struct Payment {
    pub status: PaymentStatus,
    pub failure_reason: PaymentFailureReason,
}

/// Answer of the node's get-info operation, reduced to the fields used.
#[derive(Clone, Copy, Debug, PartialEq, Eq, Structural)]
pub struct NodeInfo {
    pub num_peers: u32,
    pub block_height: u32,
}

/// Answer of the node's list-payments operation.
#[derive(Clone, Debug)]
pub struct ListPaymentsResponse {
    pub payments: Vec<Payment>,
    pub last_index_offset: u64,
}

/// One open channel, reduced to the fields used.
#[derive(Clone, Debug)]
pub struct Channel {
    pub chan_id: u64,
    pub active: bool,
    pub channel_point: String,
    pub local_balance: i64,
    pub remote_balance: i64,
    pub unsettled_balance: i64,
}

/// Answer of the node's list-channels operation.
#[derive(Clone, Debug)]
pub struct ListChannelsResponse {
    pub channels: Vec<Channel>,
}

/// A failed RPC call, reduced to its message. A scrape that receives one
/// emits nothing for the cycle; the message is only reported outward.
#[derive(Clone, Debug)]
pub struct RpcError {
    pub message: String,
}

} // verus!
