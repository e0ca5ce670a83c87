use lognet::format::{log_format, u32_to_string};
use lognet::level::{display_name, Level};

#[test]
fn full_line_matches_pattern() {
    let line = log_format(
        "2024-01-02 03:04:05.123456",
        Some("main"),
        Level::Info,
        Some("app::net"),
        Some(42),
        "hello",
    );
    assert_eq!(
        line,
        "[2024-01-02 03:04:05.123456] T[main] INFO [app::net:42] hello"
    );
}

#[test]
fn missing_parts_are_substituted() {
    let line = log_format(
        "2024-01-02 03:04:05.000001",
        None,
        Level::Error,
        None,
        None,
        "boom",
    );
    assert_eq!(
        line,
        "[2024-01-02 03:04:05.000001] T[<unnamed>] ERROR [<unnamed>:0] boom"
    );
}

#[test]
fn every_severity_renders_uppercase() {
    assert_eq!(display_name(Level::Off), "OFF");
    assert_eq!(display_name(Level::Error), "ERROR");
    assert_eq!(display_name(Level::Warn), "WARN");
    assert_eq!(display_name(Level::Info), "INFO");
    assert_eq!(display_name(Level::Debug), "DEBUG");
    assert_eq!(display_name(Level::Trace), "TRACE");
}

#[test]
fn warn_line_carries_its_level() {
    let line = log_format("t", Some("worker"), Level::Warn, Some("m"), Some(7), "w");
    assert_eq!(line, "[t] T[worker] WARN [m:7] w");
}

#[test]
fn decimal_rendering_is_exact() {
    assert_eq!(u32_to_string(0), "0");
    assert_eq!(u32_to_string(7), "7");
    assert_eq!(u32_to_string(10), "10");
    assert_eq!(u32_to_string(105), "105");
    assert_eq!(u32_to_string(1_000_000), "1000000");
    assert_eq!(u32_to_string(u32::MAX), "4294967295");
}
