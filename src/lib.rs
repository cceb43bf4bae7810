//! A bridge between a remote-procedure endpoint and a robotic arm that speaks
//! a small binary protocol over a serial line.
//!
//! - `frame`: the wire format of requests and responses.
//! - `driver`: the request/response exchange on the serial channel, as a state
//!   machine that the caller drives with the outcome of each I/O operation.
//! - `adapter`: the projection of a hardware reply onto the arm-state reply.
pub mod adapter;
pub mod driver;
pub mod frame;
