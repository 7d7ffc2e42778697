//! Watches one bitcoin address page for a new latest transaction and decides
//! when a notification about it has to be delivered.
//!
//! The crate holds the decisions only: reading a decimal block height, picking
//! the operation out of a fetched page, rendering the notification, and the
//! polling state machine. Fetching the page and delivering the message are the
//! caller's business; the state machine tells the caller what to do next.

pub mod decimal;
pub mod error;
pub mod extract;
pub mod fetch;
pub mod laws;
pub mod markup;
pub mod monitor;
pub mod notify;
pub mod snapshot;
