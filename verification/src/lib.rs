//! User-space network diagnostics: ICMP echo ping, TCP SYN knock, and
//! multi-protocol traceroute, built on verified packet codecs and a
//! verified probe-demultiplexing state.
//!
//! The library holds everything that decides or computes: header
//! codecs, checksums, probe identities, reply classification, and the
//! key-to-waiter map. The engines that own raw sockets and a runtime
//! drive these functions from outside.

pub mod addr;
pub mod bind;
pub mod bytes;
pub mod cksum;
pub mod demux;
pub mod error;
pub mod icmp4;
pub mod icmp6;
pub mod ip;
pub mod knock;
pub mod ping;
pub mod rng;
pub mod tcp;
pub mod trace;
pub mod udp;

pub use bind::Bind;
pub use knock::Knock;
pub use ping::Ping;
pub use trace::probe::Protocol;
pub use trace::sweep::Node;
pub use trace::sweep::Trace;
