//! Configuration handling for a multi-workspace orchestration tool.
//!
//! A small pointer file at a well-known location records where the user's
//! configuration file lives; the user file holds a collection of named
//! workspaces.  This crate models both records, parses and renders their
//! JSON documents, and validates every workspace entry before the rest of
//! the system may rely on it.

pub mod config;
pub mod error;
pub mod json;
pub mod maestro;
pub mod project;
pub mod store;
pub mod workspace;
