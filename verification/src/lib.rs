//! Core logic of a desktop front end for the `pake` packaging tool: the record
//! store's data model and ordering rules, and the mapping from a build
//! configuration to the tool's command line.

pub mod text;
pub mod json;
pub mod config;
pub mod error;
pub mod translate;
pub mod registry;
pub mod environment;
pub mod relay;
pub mod output;
