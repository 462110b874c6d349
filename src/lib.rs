//! A personal task and note tracker scoped to the enclosing project.
//!
//! The library holds the record models and their lossy decoding, the codec
//! between records and stored rows, the scope filter of the record store, the
//! choice of the current project, and the controller of the interactive list.
use vstd::prelude::*;

pub mod models;
pub mod records;
pub mod store;
pub mod context;
pub mod view;
pub mod cli;
