//! A single shared, ephemeral quiz session.
//!
//! The crate centres on the session store ([`quiz_manager::QuizManager`]):
//! at most one quiz is active at a time, each participant records at most
//! one answer per quiz, and finalizing atomically reports the results and
//! resets the session to idle. The dispatcher module validates external
//! requests and maps store outcomes to response payloads; the payload
//! module strips the delimiter markers that the question generator may
//! wrap around its structured text.

pub mod dispatcher;
pub mod generator;
pub mod laws;
pub mod payload;
pub mod quiz_manager;
pub mod render;
mod text;
