//! The traceroute engine's verified core: probe identities, their wire
//! encodings, the decoding of replies back to demux keys, and the
//! TTL-sweep bookkeeping.

pub mod decode;
pub mod probe;
pub mod sweep;
