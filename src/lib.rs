//! Event-action dispatcher: reads the requested action out of an event
//! payload, looks it up among a closed set of operations and decides what
//! the invocation has to do.
pub mod action;
pub mod config;
pub mod dispatch;
pub mod error;
pub mod json;
pub mod registry;
