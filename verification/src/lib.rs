//! Orchestration of a test run for code that is compiled to JavaScript: build
//! the tests for a target, find the one script that the build left, put an
//! optional prelude before it, and hand the result to a JavaScript runtime.
//!
//! The library decides; it does no input or output. Every stage is a function
//! from what the outside work gave (the output of a command, the bytes of a
//! file, the listing of a directory) to the next step or to the failure that
//! ends the run.
//!
//! - [`pipeline`]: the stages of a run, in their order.
//! - [`location`]: where the manifest is, from the report of the build tool.
//! - [`manifest`], [`config`]: the configuration, from the manifest.
//! - [`process`]: how commands, the build and the runtime ended.
//! - [`artifact`], [`naming`]: which script is run.
//! - [`script`], [`reading`]: the script that is handed to the runtime.
//! - [`manifest_limits`], [`report_limits`]: what is handed to the parsers of
//!   manifests and of reports.
//! - [`failure`], [`text`]: failures, and helpers for text.

pub mod artifact;
pub mod config;
pub mod failure;
pub mod location;
pub mod manifest;
pub mod manifest_limits;
pub mod naming;
pub mod pipeline;
pub mod process;
pub mod reading;
pub mod report_limits;
pub mod script;
pub mod text;
