//! Connection-dispatch core of a transparent proxy: address reconciliation,
//! protocol sniffing, drain supervision and the per-connection dispatch
//! decisions, all over plain values.

pub mod addr;
pub mod source;
pub mod protocol;
pub mod ports;
pub mod server;
pub mod drain;
