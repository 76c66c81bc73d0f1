//! A synchronous client library for the Marionette remote-control
//! protocol: length-prefixed framing, request/response correlation,
//! session negotiation across two command-naming generations, and
//! typed commands layered on top.
//!
//! The library itself performs no I/O.  Commands are built as
//! [`connection::Request`] values, the caller moves the bytes over its
//! own transport, and incoming frames are handed back to the library
//! for interpretation.

pub mod codec;
pub mod connection;
pub mod debugger;
pub mod digits;
pub mod element;
pub mod error;
pub mod messages;
pub mod negotiate;
pub mod prefs;
pub mod json;
