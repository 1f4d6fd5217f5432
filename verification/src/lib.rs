//! Transport-independent core of a client for the carrot key-value protocol.
//!
//! A client keeps one connection to a server and exchanges fixed-size frames
//! with it: one request frame out, one response frame back. This crate holds
//! the decisions of such a client. Opening sockets, moving bytes and running
//! the codec are left to the caller, who reports each outcome back as an event.

pub mod carrot;
pub mod error;
pub mod exchange;
pub mod frame;
pub mod reconnect;
pub mod request;
pub mod value;

pub use carrot::{Carrot, Write};
pub use error::{CarrotError, IoFailure};
pub use exchange::{Action, Event, Exchange};
pub use frame::SIZE;
pub use reconnect::{Reconnect, ATTEMPTS};
pub use request::Request;
pub use value::Value;
