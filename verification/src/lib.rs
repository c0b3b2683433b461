//! A small library that drives a three-step version-control workflow:
//! stage all changes, commit with a message, push to a remote branch.
//!
//! The workflow itself is a pure state machine (`workflow`): every piece of
//! outside work (running the tool, prompting for a message) is described by an
//! `Action`, performed by the caller, and reported back as an `Event`. The
//! library decides what happens next and interprets each step's outcome;
//! `laws` proves the guarantees the machine gives, and `error` renders each
//! failure as its user-facing line.

pub mod error;
pub mod laws;
pub mod outcome;
pub mod text;
pub mod workflow;
