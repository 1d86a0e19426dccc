//! Building blocks of a multi-host ping monitor: the ICMP wire format, the
//! per-host running statistics, and the rules of the ping engine.

pub mod checksum;
pub mod engine;
pub mod host;
pub mod icmp;
pub mod interleaving;
pub mod layout;
pub mod table;

pub use crate::engine::{build_ping, find_host, receive, reply_latency, Reception};
pub use crate::host::{to_sec, update_host_info, HostAddress, HostInfo, LossLevel, StatusUpdate};
