//! Batch conversion of vector icons to raster images, driven by a task list.
//!
//! The crate holds the decisions of the conversion pipeline: how a
//! configuration document becomes a list of tasks, how colour rules rewrite
//! a document's markup, where each result is written, and how the outcome of
//! each file is counted. Reading and writing files is left to the caller:
//! a run and each of its tasks go forward in steps, and each step names the
//! one thing the caller is to do and to report on.
//!
//! - [`config`] reads the tasks off a configuration document.
//! - [`substitute`] applies colour rules to a document's text.
//! - [`paths`] derives the place of each result.
//! - [`convert`] turns the text of a vector document into a raster file.
//! - [`directory`] works through the files of one task.
//! - [`runner`] works through the tasks of a configuration.
//! - [`report`] formats the lines of progress.
//!
//! Two modules hold the calls into other crates: [`json`] those into the
//! JSON parser, [`raster`] those into the vector parser, the renderer and
//! the raster encoder. What their functions are said to do is believed, not
//! proved; everything else is proved from it.

pub mod config;
pub mod convert;
pub mod converter;
pub mod directory;
pub mod json;
pub mod paths;
pub mod raster;
pub mod report;
pub mod runner;
pub mod substitute;
pub mod text;
