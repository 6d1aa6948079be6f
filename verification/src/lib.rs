//! The life cycle of an image-generation job: a prompt comes in over a chat,
//! a generation request is derived from a fixed template, the rendering
//! backend answers with a set of named artifacts, one image is selected and
//! the requester is told how it ended.
//!
//! Everything here is pure decision logic with machine-checked contracts.
//! Sending messages and talking to the backend is left to the caller, which
//! carries out the actions that the job state machine asks for.

pub mod artifacts;
pub mod caption;
pub mod client;
pub mod document;
pub mod error;
pub mod history;
pub mod job;
pub mod json;
pub mod named;
pub mod request;
pub mod template;
pub mod text;
