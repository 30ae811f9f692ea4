//! A content-addressed, multi-root document synchronisation engine.
//!
//! The library holds the decisions of the engine: which files a scan keeps,
//! where each file lands on a destination, when a file needs copying, how a
//! remote session retries, and how missing remote directories are created.
//! The surrounding program performs the file-system and network work and
//! feeds the results back in.
use vstd::prelude::*;

pub mod text;
pub mod config;
pub mod session;
pub mod paths;
pub mod fingerprint;
pub mod catalog;
pub mod materialize;
pub mod transfer;
pub mod sync;
