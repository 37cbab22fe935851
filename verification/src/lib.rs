//! A sans-I/O client stack for talking to one simulator over lossy datagrams:
//! a packet codec, a reliability engine with bounded retransmission, a
//! dispatch registry and the circuit that composes them.

pub mod circuit;
pub mod codec;
pub mod dispatch;
pub mod initiation;
pub mod laws;
pub mod layer_data;
pub mod llsd;
pub mod message;
pub mod messages;
pub mod model;
pub mod reliability;
pub mod simulator;
pub mod types;
pub mod wire;
