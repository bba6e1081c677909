//! Latency probing over the GTPv1-U Echo Request/Response exchange: the header
//! codec, the per-target probe session and the aggregation of its samples.
pub mod codec;
pub mod format;
pub mod session;
pub mod stats;

pub use codec::{decode, encode, DecodeError, EchoHeader};
pub use format::Format;
pub use session::Pinger;
pub use stats::Stats;
