//! The process-wide logging sink: a writer to standard error that queues
//! records for a background worker, filtered at one level, and the guard
//! whose release flushes what is queued.
//!
//! The queue holds up to 128,000 lines; when it is full, new lines are
//! dropped rather than blocking the thread that emits them.
use vstd::prelude::*;

use crate::level::LevelFilter;
use tracing_appender::non_blocking::{NonBlocking, WorkerGuard};

verus! {

#[verifier::external_type_specification]
#[verifier::external_body]
pub struct ExNonBlocking(NonBlocking);

#[verifier::external_type_specification]
#[verifier::external_body]
pub struct ExWorkerGuard(WorkerGuard);

/// Why the sink could not be installed.
#[derive(Clone, Copy, Debug, PartialEq, Eq, Structural)]
#[non_exhaustive]
pub enum Error {
    /// A process-wide log destination was installed before.
    AlreadyInitialized,
    /// The output stream could not be opened.
    SinkUnavailable,
}

/// The obligation to flush the sink: releasing it (or dropping it) waits
/// for the background worker to write out every queued record.
pub struct SinkGuard {
    guard: WorkerGuard,
    filter: LevelFilter,
}

impl View for SinkGuard {
    /// The level the installed sink filters at.
    type V = LevelFilter;

    closed spec fn view(&self) -> LevelFilter {
        self.filter
    }
}

impl SinkGuard {
    /// The level the installed sink filters at.
    pub fn filter(&self) -> (r: LevelFilter)
        ensures
            r == self@,
    {
        self.filter
    }

    /// Flushes the queued records and gives up the sink.
    pub fn release(self) {
        let SinkGuard { guard, filter: _ } = self;
        flush_and_stop(guard);
    }
}

/// The filter a sink applies for a resolved level: the level itself, or
/// `Info` where none was resolved.
pub open spec fn effective_filter(level: Option<LevelFilter>) -> LevelFilter {
    match level {
        Some(l) => l,
        None => LevelFilter::Info,
    }
}

/// The filter a sink applies for a resolved level.
pub fn sink_filter(level: Option<LevelFilter>) -> (r: LevelFilter)
    ensures
        r == effective_filter(level),
{
    match level {
        Some(l) => l,
        None => LevelFilter::Info,
    }
}

/// Relies on `tracing_appender::non_blocking`: a writer to standard error
/// whose lines a background worker writes out, and the guard of that worker.
#[verifier::external_body]
fn non_blocking_stderr() -> (r: (NonBlocking, WorkerGuard)) {
    tracing_appender::non_blocking(std::io::stderr())
}

/// Relies on `tracing_subscriber::fmt::SubscriberBuilder::try_init`, built
/// with `with_max_level` and `with_writer`: it installs the process-wide
/// subscriber, and fails when one was installed before.
#[verifier::external_body]
fn try_install(writer: NonBlocking, filter: LevelFilter) -> (r: bool) {
    let max = match filter {
        LevelFilter::Off => tracing_subscriber::filter::LevelFilter::OFF,
        LevelFilter::Error => tracing_subscriber::filter::LevelFilter::ERROR,
        LevelFilter::Warn => tracing_subscriber::filter::LevelFilter::WARN,
        LevelFilter::Info => tracing_subscriber::filter::LevelFilter::INFO,
        LevelFilter::Debug => tracing_subscriber::filter::LevelFilter::DEBUG,
        LevelFilter::Trace => tracing_subscriber::filter::LevelFilter::TRACE,
    };
    tracing_subscriber::fmt().with_max_level(max).with_writer(writer).try_init().is_ok()
}

/// Relies on `WorkerGuard`'s `Drop`: it signals the background worker to
/// write out what is queued, and waits for it.
#[verifier::external_body]
fn flush_and_stop(guard: WorkerGuard) {
    drop(guard)
}

/// Installs a non-blocking sink on standard error as the process-wide log
/// destination, filtered at `level` (or `Info` where `level` is `None`), and
/// returns the guard that flushes it. Fails with `AlreadyInitialized` where a
/// destination was installed before.
pub fn initialize(level: Option<LevelFilter>) -> (r: Result<SinkGuard, Error>)
    ensures
        r matches Ok(g) ==> g@ == effective_filter(level),
        r matches Err(e) ==> e == Error::AlreadyInitialized,
{
    let filter = sink_filter(level);
    let (writer, guard) = non_blocking_stderr();
    if try_install(writer, filter) {
        Ok(SinkGuard { guard, filter })
    } else {
        flush_and_stop(guard);
        Err(Error::AlreadyInitialized)
    }
}

} // verus!
