//! Decoder for the telemetry datagrams that the F1 2019 racing simulation
//! sends over UDP: header classification, one payload decoder per packet
//! type, and the walkers that expand the per-car, per-wheel and per-zone
//! arrays. Every decoder is a pure function of the bytes it is given.

pub mod dispatch;
pub mod error;
pub mod event;
pub mod header;
pub mod history;
pub mod lap;
pub mod motion;
pub mod participants;
pub mod session;
pub mod setups;
pub mod status;
pub mod tables;
pub mod telemetry;
pub mod walker;
pub mod wire;
