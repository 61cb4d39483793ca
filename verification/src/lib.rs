//! A client of the Atlas schema-migration tool: from typed parameters to
//! the argument vector of one run of the tool, and from what the tool
//! printed to typed results.
//!
//! The library decides; it runs nothing itself. Every operation takes the
//! function that runs an [`process::Invocation`] and hands back a
//! [`process::ProcessOutput`].

pub mod args;
pub mod atlas;
pub mod atlas_models;
pub mod context;
pub mod error;
pub mod json;
pub mod params;
pub mod process;
pub mod report;
pub mod text;
pub mod timestamp;
pub mod util;
pub mod vars;
pub mod wire;
