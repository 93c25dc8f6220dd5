//! Appends timestamp lines to a shared file at fixed intervals, optionally
//! coordinating with other writers through an advisory byte-range lock and a
//! size re-check, or follows a file through an external tailer.
pub mod text;
pub mod timestamp;
pub mod engine;
pub mod cli;
