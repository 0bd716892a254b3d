//! Management-protocol core for a distributed simulation participant: the
//! byte codec of the simulation-management PDUs, request-id correlation on
//! the originator side, and the responder's run-state machine.

pub mod app_state;
pub mod command;
pub mod config;
pub mod environment;
pub mod pdu;
pub mod responder;
pub mod session;
pub mod wire;
