//! Validation and execution of inter-chain handshake and packet-relay
//! actions, with the three-phase action contract that hosts them.

pub mod action;
pub mod channel;
pub mod connection;
pub mod digest;
pub mod error;
pub mod event;
pub mod handler;
pub mod ident;
pub mod laws;
pub mod packet;
pub mod planner;
pub mod position;
pub mod router;
pub mod scan;
pub mod state;
pub mod table;
pub mod text;
pub mod types;
pub mod wallet;
