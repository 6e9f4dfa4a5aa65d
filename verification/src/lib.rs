//! Helpers for wiring asynchronous side-effects into an Iced application.
//!
//! A connection hands the application a `Sender`, applies the application's
//! update function to the shared state for every message that comes in, and
//! turns everything the operator produces into `Message::Update`s that are also
//! fed back into the sender.  This crate holds the decisions of that protocol;
//! the streams that carry them are assembled around it.

mod channel;
pub mod combine;
pub mod connection;
pub mod error;
pub mod sender;

pub use channel::{FanOut, Sender};
pub use combine::broadcast;
pub use connection::{announce, deliver, ready_sender, receive};
pub use error::Error;
pub use sender::{send_outcome, Message, SendFailure};
