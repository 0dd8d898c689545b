use aldm::cli::{CliModifier, GlobalArguments};
use aldm::level::LevelFilter;
use aldm::logging::{initialize, sink_filter, Error as SinkError};

fn flags(json: bool, plain: bool, debug: bool, verbose: u8, quiet: u8) -> GlobalArguments {
    GlobalArguments {
        json_flag: json,
        plain_flag: plain,
        debug_flag: debug,
        verbose,
        quiet,
    }
}

#[test]
fn debug_flag_alone_gives_debug() {
    assert_eq!(flags(false, false, true, 0, 0).verbosity_filter(), Some(LevelFilter::Debug));
}

#[test]
fn json_overrides_debug_and_count() {
    assert_eq!(flags(true, false, true, 3, 0).verbosity_filter(), Some(LevelFilter::Info));
}

#[test]
fn two_verbose_flags_give_trace() {
    assert_eq!(flags(false, false, false, 2, 0).verbosity_filter(), Some(LevelFilter::Trace));
}

#[test]
fn one_verbose_flag_gives_debug() {
    assert_eq!(flags(false, false, false, 1, 0).verbosity_filter(), Some(LevelFilter::Debug));
}

#[test]
fn machine_readable_modes_give_info() {
    for (json, plain) in [(true, false), (false, true), (true, true)] {
        for debug in [false, true] {
            for (verbose, quiet) in [(0, 0), (1, 0), (5, 0), (255, 0), (0, 3)] {
                assert_eq!(
                    flags(json, plain, debug, verbose, quiet).verbosity_filter(),
                    Some(LevelFilter::Info)
                );
            }
        }
    }
}

#[test]
fn debug_flag_lifts_quieter_levels() {
    assert_eq!(flags(false, false, true, 0, 1).verbosity_filter(), Some(LevelFilter::Debug));
    assert_eq!(flags(false, false, true, 0, 200).verbosity_filter(), Some(LevelFilter::Debug));
}

#[test]
fn debug_flag_keeps_trace() {
    assert_eq!(flags(false, false, true, 1, 0).verbosity_filter(), Some(LevelFilter::Debug));
    assert_eq!(flags(false, false, true, 2, 0).verbosity_filter(), Some(LevelFilter::Trace));
    assert_eq!(flags(false, false, true, 9, 0).verbosity_filter(), Some(LevelFilter::Trace));
}

#[test]
fn no_flags_give_default() {
    assert_eq!(flags(false, false, false, 0, 0).verbosity_filter(), None);
}

#[test]
fn quiet_flags_lower_the_level() {
    assert_eq!(flags(false, false, false, 0, 1).verbosity_filter(), Some(LevelFilter::Warn));
    assert_eq!(flags(false, false, false, 0, 2).verbosity_filter(), Some(LevelFilter::Error));
    assert_eq!(flags(false, false, false, 0, 3).verbosity_filter(), Some(LevelFilter::Off));
    assert_eq!(flags(false, false, false, 0, 255).verbosity_filter(), Some(LevelFilter::Off));
    assert_eq!(flags(false, false, false, 2, 1).verbosity_filter(), Some(LevelFilter::Debug));
}

#[test]
fn largest_count_stays_at_trace() {
    assert_eq!(flags(false, false, false, 255, 0).verbosity_filter(), Some(LevelFilter::Trace));
    assert_eq!(flags(false, false, false, 255, 255).verbosity_filter(), Some(LevelFilter::Info));
}

#[test]
fn resolving_twice_agrees() {
    let a = flags(false, false, true, 1, 0);
    assert_eq!(a.verbosity_filter(), a.verbosity_filter());
    let b = flags(false, true, false, 0, 2);
    assert_eq!(b.verbosity_filter(), b.verbosity_filter());
}

#[test]
fn colour_and_json_switches() {
    assert!(flags(true, false, false, 0, 0).is_uncolored());
    assert!(flags(false, true, false, 0, 0).is_uncolored());
    assert!(!flags(false, false, true, 2, 0).is_uncolored());
    assert!(flags(true, false, false, 0, 0).is_json());
    assert!(!flags(false, true, false, 0, 0).is_json());
}

#[test]
fn level_order() {
    assert!(LevelFilter::Info.is_less_verbose_than(&LevelFilter::Debug));
    assert!(!LevelFilter::Trace.is_less_verbose_than(&LevelFilter::Debug));
    assert!(!LevelFilter::Debug.is_less_verbose_than(&LevelFilter::Debug));
    assert_eq!(LevelFilter::Off.verbosity(), 0);
    assert_eq!(LevelFilter::Trace.verbosity(), 5);
}

#[test]
fn sink_filter_defaults_to_info() {
    assert_eq!(sink_filter(None), LevelFilter::Info);
    assert_eq!(sink_filter(Some(LevelFilter::Trace)), LevelFilter::Trace);
}

#[test]
fn second_initialize_is_refused() {
    let guard = initialize(Some(LevelFilter::Debug)).expect("first initialization");
    assert_eq!(guard.filter(), LevelFilter::Debug);
    match initialize(Some(LevelFilter::Debug)) {
        Err(e) => assert_eq!(e, SinkError::AlreadyInitialized),
        Ok(_) => panic!("second initialization succeeded"),
    }
    let args = flags(false, false, true, 0, 0);
    match aldm::cli::Cli::start_logging(&args) {
        Err(e) => assert!(matches!(
            e,
            aldm::app::Error::Logging {
                source: SinkError::AlreadyInitialized,
                ..
            }
        )),
        Ok(_) => panic!("third initialization succeeded"),
    }
    guard.release();
}
