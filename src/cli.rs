//! The command line's global output flags and how they resolve to one
//! logging level.
use vstd::prelude::*;

use crate::app;
use crate::level::{count_filter, verbosity_flag_filter, LevelFilter};
use crate::logging::{effective_filter, initialize, SinkGuard};

verus! {

/// The command line application.
pub struct Cli {}

impl Cli {
    /// Installs the logging sink at the level that the global flags select,
    /// and returns the guard that flushes it. A failure to install comes back
    /// as a logging error of the application.
    pub fn start_logging(args: &GlobalArguments) -> (r: Result<SinkGuard, app::Error>)
        ensures
            r matches Ok(g) ==> g@ == effective_filter(resolve(*args)),
            r matches Err(e) ==> e == (app::Error::Logging {
                source: crate::logging::Error::AlreadyInitialized,
            }),
    {
        match initialize(args.verbosity_filter()) {
            Ok(g) => Ok(g),
            Err(e) => Err(app::Error::Logging { source: e }),
        }
    }
}

/// Errors of the command line layer. Parsing errors themselves are reported
/// by the argument parser before this layer runs.
#[derive(Clone, Copy, Debug, PartialEq, Eq, Structural)]
#[non_exhaustive]
pub enum Error {
    #[non_exhaustive]
    Dummy {},
}

/// The flags that apply to every invocation.
#[derive(Clone, Copy, Debug, PartialEq, Eq, Structural)]
pub struct GlobalArguments {
    /// `--json`: machine-readable JSON output.
    pub json_flag: bool,
    /// `--plain`: plain text output for scripting.
    pub plain_flag: bool,
    /// `--debug`: ask for debug messages.
    pub debug_flag: bool,
    /// How many times `-v` was given.
    pub verbose: u8,
    /// How many times `-q` was given.
    pub quiet: u8,
}

/// The whole command line, as parsed.
#[derive(Clone, Copy, Debug, PartialEq, Eq, Structural)]
pub struct CliTemplate {
    pub global_arguments: GlobalArguments,
}

/// Whether the output is meant for machines (`--json` or `--plain`).
pub open spec fn machine_readable(a: GlobalArguments) -> bool {
    a.json_flag || a.plain_flag
}

/// Whether any `-v` or `-q` was given.
pub open spec fn count_given(a: GlobalArguments) -> bool {
    a.verbose != 0 || a.quiet != 0
}

/// The level that the flags select, by precedence: machine-readable output
/// forces `Info`; otherwise `--debug` lifts a count-derived level below
/// `Debug` to `Debug`; otherwise, with no `-v` or `-q`, the ambient default
/// applies (`None`); otherwise the count-derived level stands.
pub open spec fn resolve(a: GlobalArguments) -> Option<LevelFilter> {
    let counted = count_filter(a.verbose, a.quiet);
    if machine_readable(a) {
        Some(LevelFilter::Info)
    } else if a.debug_flag && counted.rank() < LevelFilter::Debug.rank() {
        Some(LevelFilter::Debug)
    } else if !count_given(a) {
        None
    } else {
        Some(counted)
    }
}

/// What the global flags say about the output.
pub trait CliModifier {
    /// The logging level the flags select, as a value.
    spec fn selected_filter(&self) -> Option<LevelFilter>;

    /// Whether output goes without colours, as a value.
    spec fn uncolored(&self) -> bool;

    /// Whether output is JSON, as a value.
    spec fn json(&self) -> bool;

    /// The logging level the flags select, or `None` for the ambient default.
    fn verbosity_filter(&self) -> (r: Option<LevelFilter>)
        ensures
            r == self.selected_filter(),
    ;

    /// Whether output goes without colours.
    fn is_uncolored(&self) -> (r: bool)
        ensures
            r == self.uncolored(),
    ;

    /// Whether output is JSON.
    fn is_json(&self) -> (r: bool)
        ensures
            r == self.json(),
    ;
}

impl CliModifier for GlobalArguments {
    open spec fn selected_filter(&self) -> Option<LevelFilter> {
        resolve(*self)
    }

    open spec fn uncolored(&self) -> bool {
        machine_readable(*self)
    }

    open spec fn json(&self) -> bool {
        self.json_flag
    }

    fn verbosity_filter(&self) -> (r: Option<LevelFilter>) {
        if self.plain_flag || self.json_flag {
            return Some(LevelFilter::Info);
        }
        let counted = verbosity_flag_filter(self.verbose, self.quiet);
        if counted.is_less_verbose_than(&LevelFilter::Debug) && self.debug_flag {
            return Some(LevelFilter::Debug);
        }
        if self.verbose == 0 && self.quiet == 0 {
            return None;
        }
        Some(counted)
    }

    fn is_uncolored(&self) -> (r: bool) {
        self.plain_flag || self.json_flag
    }

    fn is_json(&self) -> (r: bool) {
        self.json_flag
    }
}

/// With `--json` or `--plain`, the level is `Info`, whatever `--debug`, `-v`
/// and `-q` say.
pub proof fn machine_readable_forces_info(a: GlobalArguments)
    requires
        a.json_flag || a.plain_flag,
    ensures
        resolve(a) == Some(LevelFilter::Info),
{
}

/// Without `--json` and `--plain`, `--debug` turns a count-derived level that
/// is less verbose than `Debug` (the `Info` baseline among them) into `Debug`.
pub proof fn debug_flag_lifts_to_debug(a: GlobalArguments)
    requires
        !a.json_flag,
        !a.plain_flag,
        a.debug_flag,
        count_filter(a.verbose, a.quiet).rank() < LevelFilter::Debug.rank(),
    ensures
        resolve(a) == Some(LevelFilter::Debug),
{
}

/// Without `--json` and `--plain`, `--debug` adds nothing to a count-derived
/// level that is already `Debug` or more verbose.
pub proof fn debug_flag_keeps_deeper_count(a: GlobalArguments)
    requires
        !a.json_flag,
        !a.plain_flag,
        a.debug_flag,
        count_filter(a.verbose, a.quiet).rank() >= LevelFilter::Debug.rank(),
    ensures
        resolve(a) == Some(count_filter(a.verbose, a.quiet)),
{
}

/// With no flag at all, the ambient default applies.
pub proof fn no_flags_keep_default(a: GlobalArguments)
    requires
        !a.json_flag,
        !a.plain_flag,
        !a.debug_flag,
        a.verbose == 0,
        a.quiet == 0,
    ensures
        resolve(a) == None::<LevelFilter>,
{
}

/// Resolution depends on the flags alone: equal flags resolve alike.
pub proof fn resolve_is_deterministic(a: GlobalArguments, b: GlobalArguments)
    requires
        a == b,
    ensures
        resolve(a) == resolve(b),
{
}

} // verus!
