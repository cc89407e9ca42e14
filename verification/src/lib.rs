//! A sans-I/O core for a data-access layer over a key/value cache and a
//! relational store.
//!
//! The crate decides and the caller performs: every operation is split into
//! a step that builds the command to issue and a step that turns what the
//! store or the deadline guard reported into a typed result.

pub mod errors;
pub mod guard;
pub mod codec;
pub mod wire;
pub mod cache;
pub mod db;
pub mod config;
