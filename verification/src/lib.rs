//! Locating the manifest of a Cargo project from a run of `cargo locate-project`.
//!
//! The library holds every decision of that task and none of its effects. A caller asks
//! [`tool_name`] which program to run, runs it with [`SUBCOMMAND`] as its one argument, and
//! hands what came of it to [`locate_manifest`] as an [`Invocation`], or as the error that
//! kept the program from running. What comes back is the path that the program reported,
//! or a [`LocateManifestError`] that says which step failed.
//!
//! The JSON is read by the `json` crate, whose parser gives up on a fraction of tens of
//! thousands of digits. [`locate_manifest`] therefore asks its caller for output without
//! such a run of digits, which [`has_fitting_digit_runs`] tests; [`try_locate_manifest`]
//! makes the test itself.

pub mod decode;
pub mod document;
pub mod error;
pub mod locate;
pub mod tool;

pub use crate::document::{has_fitting_digit_runs, DIGIT_RUN_LIMIT};
pub use crate::error::{compose_message, ErrorKind, LocateManifestError};
pub use crate::locate::{
    locate_manifest, manifest_from_document, manifest_from_root, text_from_run,
    try_locate_manifest, Invocation, ROOT_KEY,
};
pub use crate::tool::{tool_name, DEFAULT_TOOL, OVERRIDE_VARIABLE, SUBCOMMAND};
