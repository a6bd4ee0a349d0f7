//! A small bootstrap layer for a single-site HTTP application.
//!
//! The crate holds the decisions of the bootstrap: which configuration a
//! process runs with, what the listener and the virtual host look like, in
//! which order an application moves through its lifecycle, and how every
//! failure is reported as one error type. Reading files, awaiting the server
//! and talking to the network are left to the caller.
use vstd::prelude::*;

pub mod app;
pub mod assembler;
pub mod config;
pub mod document;
pub mod errors;
pub mod host;
pub mod resolver;

verus! {

/// Path of the configuration file, relative to the working directory.
pub const CONFIG: &'static str = "sofie.toml";

} // verus!
