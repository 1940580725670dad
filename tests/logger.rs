use sir_logger::guard::{InitGuard, InitStep};
use sir_logger::line::{format_line, format_record, Hue};
use sir_logger::panic_bridge::{decimal_text, location_message, panic_message, panic_records, PanicPayload};
use sir_logger::routing::{baseline_threshold, RoutingTable};
use sir_logger::severity::{resolve_level, severity_from_text, Severity};

#[test]
fn explicit_level_ignores_environment() {
    assert_eq!(resolve_level(Some(Severity::Trace), Some("error")), Severity::Trace);
    assert_eq!(resolve_level(Some(Severity::Trace), None), Severity::Trace);
    assert_eq!(resolve_level(Some(Severity::Off), Some("debug")), Severity::Off);
}

#[test]
fn environment_level_is_case_insensitive() {
    assert_eq!(resolve_level(None, Some("DeBuG")), Severity::Debug);
    assert_eq!(resolve_level(None, Some("debug")), Severity::Debug);
    assert_eq!(resolve_level(None, Some("trace")), Severity::Trace);
    assert_eq!(resolve_level(None, Some("Off")), Severity::Off);
}

#[test]
fn missing_or_bad_environment_level_is_info() {
    assert_eq!(resolve_level(None, None), Severity::Info);
    assert_eq!(resolve_level(None, Some("loud")), Severity::Info);
    assert_eq!(resolve_level(None, Some("")), Severity::Info);
    assert_eq!(resolve_level(None, Some(" warn")), Severity::Info);
}

#[test]
fn level_text_names() {
    assert_eq!(severity_from_text("ERROR"), Severity::Error);
    assert_eq!(severity_from_text("wArN"), Severity::Warn);
    assert_eq!(severity_from_text("info"), Severity::Info);
    assert_eq!(severity_from_text("nothing"), Severity::Info);
    assert_eq!(Severity::Debug.name(), "DEBUG");
    assert_eq!(Severity::Off.name(), "OFF");
}

#[test]
fn thresholds_let_through_quieter_records() {
    assert!(Severity::Warn.lets_through(Severity::Error));
    assert!(Severity::Warn.lets_through(Severity::Warn));
    assert!(!Severity::Warn.lets_through(Severity::Info));
    assert!(Severity::Trace.lets_through(Severity::Trace));
    assert!(!Severity::Off.lets_through(Severity::Error));
    assert!(!Severity::Trace.lets_through(Severity::Off));
}

#[test]
fn baseline_keeps_extremes_and_clamps_the_rest() {
    assert_eq!(baseline_threshold(Severity::Trace), Severity::Trace);
    assert_eq!(baseline_threshold(Severity::Error), Severity::Error);
    assert_eq!(baseline_threshold(Severity::Off), Severity::Off);
    assert_eq!(baseline_threshold(Severity::Debug), Severity::Warn);
    assert_eq!(baseline_threshold(Severity::Info), Severity::Warn);
    assert_eq!(baseline_threshold(Severity::Warn), Severity::Warn);
}

#[test]
fn unnamed_namespace_follows_baseline() {
    let t = RoutingTable::plan(Severity::Trace, "app", &["lib_a"], &["noisy"]);
    assert!(t.enabled("other", Severity::Trace));
    let t = RoutingTable::plan(Severity::Info, "app", &["lib_a"], &["noisy"]);
    assert!(!t.enabled("other", Severity::Debug));
    assert!(!t.enabled("other", Severity::Info));
    assert!(t.enabled("other", Severity::Warn));
    let t = RoutingTable::plan(Severity::Error, "app", &[], &[]);
    assert_eq!(t.threshold_for("other"), Severity::Error);
    assert!(!t.enabled("other", Severity::Warn));
}

#[test]
fn suppression_beats_elevation() {
    let t = RoutingTable::plan(Severity::Trace, "app", &["both", "up"], &["both"]);
    assert_eq!(t.threshold_for("both"), Severity::Off);
    assert!(!t.enabled("both", Severity::Error));
    assert_eq!(t.threshold_for("up"), Severity::Trace);
}

#[test]
fn root_honors_level() {
    let t = RoutingTable::plan(Severity::Debug, "app", &[], &[]);
    assert!(t.enabled("app", Severity::Debug));
    assert!(!t.enabled("app", Severity::Trace));
    assert!(!t.enabled("dependency", Severity::Debug));
    assert_eq!(t.baseline, Severity::Warn);
    assert_eq!(t.entries.len(), 1);
}

#[test]
fn table_entries_in_application_order() {
    let t = RoutingTable::plan(Severity::Info, "app", &["a", "b"], &["c"]);
    let names: Vec<(&str, Severity)> = t.entries.iter().map(|(n, l)| (n.as_str(), *l)).collect();
    assert_eq!(
        names,
        vec![("app", Severity::Info), ("a", Severity::Info), ("b", Severity::Info), ("c", Severity::Off)]
    );
}

#[test]
fn second_initialize_does_nothing() {
    let mut g = InitGuard::new();
    assert!(!g.is_initialized());
    let first = g.initialize(None, Some("debug"), "app", &["x"], &[]);
    assert!(g.is_initialized());
    match first {
        InitStep::Configure { level, table } => {
            assert_eq!(level, Severity::Debug);
            assert_eq!(table.threshold_for("app"), Severity::Debug);
            assert_eq!(table.threshold_for("x"), Severity::Debug);
            assert_eq!(table.threshold_for("y"), Severity::Warn);
        }
        InitStep::AlreadyInitialized => panic!("first call must configure"),
    }
    let second = g.initialize(Some(Severity::Trace), None, "app", &[], &["x"]);
    assert!(matches!(second, InitStep::AlreadyInitialized));
    assert!(g.is_initialized());
}

#[test]
fn text_panic_is_logged_verbatim_at_error() {
    let r = panic_records(None, &PanicPayload::Text("boom".to_string()));
    assert_eq!(r, vec![(Severity::Error, "boom".to_string())]);
}

#[test]
fn opaque_panic_still_gives_error_record() {
    let p = PanicPayload::Opaque("Any { .. }".to_string());
    assert_eq!(panic_message(&p), "Any { .. }");
    let r = panic_records(None, &p);
    assert_eq!(r.len(), 1);
    assert_eq!(r[0].0, Severity::Error);
}

#[test]
fn panic_location_comes_first_at_debug() {
    let r = panic_records(Some(("src/main.rs", 12)), &PanicPayload::Text("boom".to_string()));
    assert_eq!(
        r,
        vec![
            (Severity::Debug, "panic occurred in file 'src/main.rs:12'".to_string()),
            (Severity::Error, "boom".to_string()),
        ]
    );
}

#[test]
fn location_and_decimal_text() {
    assert_eq!(location_message("a.rs", 0), "panic occurred in file 'a.rs:0'");
    assert_eq!(decimal_text(0), "0");
    assert_eq!(decimal_text(9), "9");
    assert_eq!(decimal_text(10), "10");
    assert_eq!(decimal_text(4294967295), "4294967295");
}

#[test]
fn level_colors() {
    assert_eq!(Hue::of_level(Severity::Error), Hue::Red);
    assert_eq!(Hue::of_level(Severity::Warn), Hue::Yellow);
    assert_eq!(Hue::of_level(Severity::Info), Hue::Green);
    assert_eq!(Hue::of_level(Severity::Debug), Hue::White);
    assert_eq!(Hue::of_level(Severity::Trace), Hue::BrightBlack);
}

#[test]
fn line_layout_with_given_date() {
    let l = format_line("2024-05-06T07:08:09Z", Severity::Warn, "app::net", "slow");
    assert_eq!(
        l,
        "[\x1B[34m2024-05-06T07:08:09Z\x1B[0m \x1B[33m\x1B[33mWARN\x1B[0m\x1B[0m \x1B[32mapp::net\x1B[0m] slow"
    );
    let l = format_line("d", Severity::Trace, "x", "");
    assert_eq!(l, "[\x1B[34md\x1B[0m \x1B[90m\x1B[90mTRACE\x1B[0m\x1B[0m \x1B[32mx\x1B[0m] ");
}

#[test]
fn record_line_with_timestamp() {
    let l = format_record(0, Severity::Error, "app", "boom");
    assert_eq!(
        l,
        "[\x1B[34m1970-01-01T00:00:00Z\x1B[0m \x1B[31m\x1B[31mERROR\x1B[0m\x1B[0m \x1B[32mapp\x1B[0m] boom"
    );
    let l = format_record(253402300799, Severity::Info, "a", "m");
    assert_eq!(l, "[\x1B[34m9999-12-31T23:59:59Z\x1B[0m \x1B[32m\x1B[32mINFO\x1B[0m\x1B[0m \x1B[32ma\x1B[0m] m");
    let l = format_record(1_700_000_000, Severity::Debug, "a", "m");
    assert!(l.contains("2023-11-14T22:13:20Z"));
    assert!(l.contains("\x1B[37m\x1B[37mDEBUG"));
}
