use daily_rotation_logs::bootstrap::{InitError, LogBootstrap, RouteDecision};
use daily_rotation_logs::filter::{resolve_filter, FilterChoice};
use daily_rotation_logs::level::{passes, Level};

#[test]
fn initialize_succeeds_exactly_once() {
    let mut b = LogBootstrap::new();
    let first = b.initialize(true, None, Level::Info);
    assert!(first.is_ok());
    let second = b.initialize(true, None, Level::Info);
    assert_eq!(second.err(), Some(InitError::AlreadyInitialized));
    let third = b.initialize(false, Some("other=debug"), Level::Error);
    assert_eq!(third.err(), Some(InitError::AlreadyInitialized));
}

#[test]
fn unwritable_directory_gives_io_error_and_installs_nothing() {
    let mut b = LogBootstrap::new();
    let r = b.initialize(false, None, Level::Info);
    assert_eq!(r.err(), Some(InitError::IoError));
    assert_eq!(b.route(Level::Error), RouteDecision::NoDispatcher);
    assert_eq!(b.route(Level::Trace), RouteDecision::NoDispatcher);
    let retry = b.initialize(true, None, Level::Info);
    assert!(retry.is_ok());
}

#[test]
fn malformed_override_falls_back_to_default() {
    let r = resolve_filter(Some("foo=bar"), Level::Warn);
    match r {
        FilterChoice::Fallback(l) => assert_eq!(l, Level::Warn),
        FilterChoice::FromOverride(_) => panic!("malformed override was accepted"),
    }
}

#[test]
fn malformed_override_behaves_like_absent_override() {
    let mut with_bad = LogBootstrap::new();
    let r1 = with_bad.initialize(true, Some("=notdirective"), Level::Warn);
    assert!(r1.is_ok());
    let mut without = LogBootstrap::new();
    let r2 = without.initialize(true, None, Level::Warn);
    assert!(r2.is_ok());
    for lvl in [Level::Trace, Level::Debug, Level::Info, Level::Warn, Level::Error] {
        assert_eq!(with_bad.route(lvl), without.route(lvl));
    }
}

#[test]
fn whitespace_edged_non_ascii_override_falls_back_to_default() {
    // Leading whitespace before a multi-byte character: handed raw to the
    // framework's parser this input makes it slice inside a character.
    let r = resolve_filter(Some(" \u{e9}=info"), Level::Warn);
    match r {
        FilterChoice::Fallback(l) => assert_eq!(l, Level::Warn),
        FilterChoice::FromOverride(_) => panic!("unsafe override was handed to the parser"),
    }
    let r2 = resolve_filter(Some("app=debug, caf\u{e9}=info"), Level::Error);
    match r2 {
        FilterChoice::Fallback(l) => assert_eq!(l, Level::Error),
        FilterChoice::FromOverride(_) => panic!("unsafe override was handed to the parser"),
    }
}

#[test]
fn self_trimmed_non_ascii_override_is_used() {
    // A well-formed non-ASCII directive with no whitespace at any segment
    // edge is safe to parse, and the parser accepts it.
    let r = resolve_filter(Some("caf\u{e9}=debug"), Level::Error);
    assert!(matches!(r, FilterChoice::FromOverride(_)));
    // Interior whitespace away from the segment edges is safe too.
    let r2 = resolve_filter(Some("info,caf\u{e9}=warn"), Level::Error);
    assert!(matches!(r2, FilterChoice::FromOverride(_)));
}

#[test]
fn unsafe_override_behaves_like_absent_override() {
    let mut with_non_ascii = LogBootstrap::new();
    assert!(with_non_ascii.initialize(true, Some(" \u{e9}=info"), Level::Warn).is_ok());
    let mut without = LogBootstrap::new();
    assert!(without.initialize(true, None, Level::Warn).is_ok());
    for lvl in [Level::Trace, Level::Debug, Level::Info, Level::Warn, Level::Error] {
        assert_eq!(with_non_ascii.route(lvl), without.route(lvl));
    }
}

#[test]
fn well_formed_override_is_used() {
    let bare = resolve_filter(Some("info"), Level::Warn);
    assert!(matches!(bare, FilterChoice::FromOverride(_)));
    let targeted = resolve_filter(Some("my_app=debug,warn"), Level::Error);
    assert!(matches!(targeted, FilterChoice::FromOverride(_)));
}

#[test]
fn absent_override_uses_default_level() {
    let r = resolve_filter(None, Level::Debug);
    match r {
        FilterChoice::Fallback(l) => assert_eq!(l, Level::Debug),
        FilterChoice::FromOverride(_) => panic!("no override to accept"),
    }
}

#[test]
fn warn_default_filters_info_and_delivers_warn_and_error() {
    let mut b = LogBootstrap::new();
    let r = b.initialize(true, None, Level::Warn);
    assert!(r.is_ok());
    assert_eq!(b.route(Level::Info), RouteDecision::Filtered);
    assert_eq!(b.route(Level::Warn), RouteDecision::Deliver);
    assert_eq!(b.route(Level::Error), RouteDecision::Deliver);
}

#[test]
fn severity_filter_admits_records_at_or_above_the_minimum() {
    assert!(passes(Level::Warn, Level::Warn));
    assert!(passes(Level::Warn, Level::Error));
    assert!(!passes(Level::Warn, Level::Info));
    assert!(passes(Level::Trace, Level::Debug));
    assert!(!passes(Level::Error, Level::Warn));
}

#[test]
fn directive_spellings() {
    assert_eq!(Level::Trace.directive_str(), "trace");
    assert_eq!(Level::Debug.directive_str(), "debug");
    assert_eq!(Level::Info.directive_str(), "info");
    assert_eq!(Level::Warn.directive_str(), "warn");
    assert_eq!(Level::Error.directive_str(), "error");
}
