//! Relays source-control webhook events to a chat bot.
//!
//! The library authenticates an inbound webhook call against a routing
//! table, renders the event as a human-readable message and prepares the
//! request that delivers it to the chat provider.

pub mod text;
pub mod bot;
pub mod event;
pub mod webhook;
