//! A line-oriented JSON proxy in front of the AquesTalk speech synthesis engine.
//!
//! The crate holds the protocol logic of one session: the fault table of the
//! engine, the validation of phonetic texts, the request and response
//! messages with their wire format, and the decisions that a session
//! takes for each value that was read from its stream.

pub mod aquestalk;
pub mod messages;
pub mod proxy;
pub mod server;
pub mod wire;
