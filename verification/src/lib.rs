//! Traffic-splitting gateway and event relay for a catalogue of movies, users,
//! payments and subscriptions that is served by two backends at once.
//!
//! The gateway decides, call by call, which backend serves a request and which
//! outbound request that is; the relay wraps every create request into an event
//! envelope, hands it to a message log and drains that log in the background.
//! Everything that waits on the network is left to the caller: this crate holds
//! the decisions, and states each of them as a contract.

pub mod text;
pub mod config;
pub mod switcher;
pub mod error;
pub mod clock;
pub mod event;
pub mod model;
pub mod consumer;
pub mod relay;
pub mod server;

use vstd::prelude::*;

verus! {

/// A service that a client can be connected to.
pub trait ServiceConnect {
    type Config;

    type Error;

    type Client;

    fn connect(config: &Self::Config) -> Result<Self::Client, Self::Error>;
}

} // verus!
