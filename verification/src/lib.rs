//! The logic of a QUIC chat program: who the peers are, what a session does
//! with the messages that travel over it, where its TLS credentials come from,
//! and what the console shows.
//!
//! Reading files, resolving names and moving bytes over the network are left to
//! the program around this library; it hands in what it read and performs what
//! it is told.
pub mod calls;
pub mod credentials;
pub mod endpoint;
pub mod exchange;
pub mod guarantees;
pub mod launch;
pub mod laws;
pub mod lifecycle;
pub mod message;
pub mod resolve;
pub mod session;
pub mod state;
pub mod text;
pub mod transport;
pub mod trust;
pub mod ui;
pub mod user;
