//! Errors that end the application's startup.
use vstd::prelude::*;

use crate::{cli, logging};

verus! {

/// Why the application could not start.
#[derive(Clone, Copy, Debug, PartialEq, Eq, Structural)]
#[non_exhaustive]
pub enum Error {
    /// The logging sink could not be installed.
    #[non_exhaustive]
    Logging { source: logging::Error },
    /// The command line's configuration was refused.
    #[non_exhaustive]
    Config { source: cli::Error },
}

} // verus!
