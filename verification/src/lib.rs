//! Daily notes: one markdown file for each local calendar date, kept in a
//! single store directory.
//!
//! The library decides where the store is, what today's note is called, and
//! what the outcome of creating it means. It creates nothing itself: the
//! caller creates the directory and the file, and reports back.

pub mod date;
pub mod error;
pub mod note;
pub mod run;
pub mod store;
