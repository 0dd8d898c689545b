//! Logging levels as an ordered filter, and the mapping from repeated
//! `-v` / `-q` flags to a level.
use vstd::prelude::*;

use clap_verbosity_flag::{InfoLevel, Verbosity};

verus! {

/// The least severe records that a sink lets through, from `Off` (nothing)
/// to `Trace` (everything). Later variants are more verbose.
#[derive(Clone, Copy, Debug, PartialEq, Eq, Structural)]
pub enum LevelFilter {
    Off,
    Error,
    Warn,
    Info,
    Debug,
    Trace,
}

impl LevelFilter {
    /// Position in the order of increasing verbosity: `Off` is 0, `Trace` is 5.
    pub open spec fn rank(self) -> nat {
        match self {
            LevelFilter::Off => 0,
            LevelFilter::Error => 1,
            LevelFilter::Warn => 2,
            LevelFilter::Info => 3,
            LevelFilter::Debug => 4,
            LevelFilter::Trace => 5,
        }
    }

    /// The filter at a given rank; ranks past `Trace` stay at `Trace`.
    pub open spec fn from_rank(r: int) -> LevelFilter {
        if r <= 0 {
            LevelFilter::Off
        } else if r == 1 {
            LevelFilter::Error
        } else if r == 2 {
            LevelFilter::Warn
        } else if r == 3 {
            LevelFilter::Info
        } else if r == 4 {
            LevelFilter::Debug
        } else {
            LevelFilter::Trace
        }
    }

    /// The rank of this filter, computed.
    pub fn verbosity(&self) -> (r: u8)
        ensures
            r as nat == self.rank(),
    {
        match self {
            LevelFilter::Off => 0,
            LevelFilter::Error => 1,
            LevelFilter::Warn => 2,
            LevelFilter::Info => 3,
            LevelFilter::Debug => 4,
            LevelFilter::Trace => 5,
        }
    }

    /// Whether `self` lets through fewer records than `other`.
    pub fn is_less_verbose_than(&self, other: &LevelFilter) -> (r: bool)
        ensures
            r == (self.rank() < other.rank()),
    {
        self.verbosity() < other.verbosity()
    }
}

/// The rank reached from the `Info` baseline after `verbose` steps up and
/// `quiet` steps down, kept within `0..=255`.
pub open spec fn count_rank(verbose: u8, quiet: u8) -> int {
    let v = 3 - quiet as int + verbose as int;
    if v < 0 {
        0
    } else if v > 255 {
        255
    } else {
        v
    }
}

/// The filter that `verbose` repetitions of `-v` and `quiet` repetitions of
/// `-q` select, from the `Info` baseline.
pub open spec fn count_filter(verbose: u8, quiet: u8) -> LevelFilter {
    LevelFilter::from_rank(count_rank(verbose, quiet))
}

/// Relies on `clap_verbosity_flag::Verbosity::<InfoLevel>::log_level_filter`:
/// the baseline `Info` is raised one level per `-v` and lowered one per `-q`,
/// clamped to `0..=255`, where 0 is `Off` and every rank from 5 up is `Trace`.
#[verifier::external_body]
pub(crate) fn verbosity_flag_filter(verbose: u8, quiet: u8) -> (r: LevelFilter)
    ensures
        r == count_filter(verbose, quiet),
{
    match Verbosity::<InfoLevel>::new(verbose, quiet).log_level_filter() {
        clap_verbosity_flag::LevelFilter::Off => LevelFilter::Off,
        clap_verbosity_flag::LevelFilter::Error => LevelFilter::Error,
        clap_verbosity_flag::LevelFilter::Warn => LevelFilter::Warn,
        clap_verbosity_flag::LevelFilter::Info => LevelFilter::Info,
        clap_verbosity_flag::LevelFilter::Debug => LevelFilter::Debug,
        clap_verbosity_flag::LevelFilter::Trace => LevelFilter::Trace,
    }
}

} // verus!
