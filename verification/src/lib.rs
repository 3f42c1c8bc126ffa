//! Progress tracking and terminal display logic for concurrent jobs.
use vstd::prelude::*;

pub mod strs;
pub mod errors;
pub mod job;
pub mod job_traits;
pub mod mode_parameters;
pub mod window_base;
pub mod modes;
pub mod titled;
pub mod config;
pub mod factory;
pub mod cursor;
pub mod indicators;
pub mod progress_bar;
pub mod bars;
pub mod template;
pub mod laws;
pub mod io;
pub mod memory_io;
pub mod news;
pub mod duration;
pub mod recovery;
pub mod display;
pub mod text;
pub mod cli;
pub mod events;
pub mod frame;
pub mod screen;

verus! {

} // verus!
