//! Startup support for the `aldm` command line: how the global output flags
//! resolve to one logging level, and the non-blocking logging sink that the
//! resolved level filters.
use vstd::prelude::*;

pub mod app;
pub mod cli;
pub mod level;
pub mod logging;

verus! {

/// The program's name, as shown in its help and its log output.
pub const APP_NAME: &'static str = "aldm";

} // verus!
