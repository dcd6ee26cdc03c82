//! Keeps a vehicle parked: the decisions of an engine that books paid parking
//! sessions in small increments and renews them until a requested duration is
//! covered.
//!
//! The engine never touches the network itself. Every operation is a small
//! state machine: it hands out a [`transport::Request`] to perform and is fed
//! what came back.

pub mod config;
pub mod error;
pub mod middleware;
pub mod outside;
pub mod paybyphone;
pub mod pipeline;
pub mod scheduler;
pub mod text;
pub mod time;
pub mod transport;
pub mod types;
