//! The execution core of a function runner.
//!
//! A caller connects and asks for one qualification check. The bridge starts
//! a worker process for it, hands the worker the request, forwards what the
//! worker writes, and tears both down at the end. This crate is the bridge
//! without its hands: the messages of the two wire protocols, their JSON
//! documents, the lines on the worker's pipes, and the decisions of the
//! execution, as verified functions on plain values. The connection belongs
//! to the program that drives it; the worker is owned by the execution, which
//! carries its handle and never looks at it.
pub mod clock;
pub mod component;
pub mod error;
pub mod frames;
pub mod json;
pub mod lang_server;
pub mod protocol;
pub mod qualification_check;
pub mod request;
pub mod schema;
pub mod transcript;
