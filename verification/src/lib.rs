//! Core logic of a metrics exporter for a Lightning Network node.
//!
//! Each external poll triggers one collection cycle: the node is asked for
//! its general info, its outgoing payments (paginated by a cursor), and its
//! open channels, and every successful answer is folded into a batch of
//! gauge series. The RPC transport and the exposition encoding live outside
//! this crate; the functions here take the raw responses as values and are
//! verified to map them to the metric schema exactly.

pub mod collector;
pub mod cursor;
pub mod domain;
pub mod interceptor;
pub mod metrics;
pub mod scrape;
pub mod text;
