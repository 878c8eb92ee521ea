use kannaka_tui::cosmos::{clean_radio_lines, parse_constellation_line};

#[test]
fn parse_up_app_with_padded_url() {
    let app = parse_constellation_line("  \u{2713} Kannaka Radio    https://radio.ninja-portal.com")
        .unwrap();
    assert_eq!(app.name, "Kannaka Radio");
    assert!(app.up);
    assert_eq!(app.url, "https://radio.ninja-portal.com");
}

#[test]
fn parse_down_app() {
    let app =
        parse_constellation_line("  \u{2717} Kannaktopus      http://170.9.238.136:8787").unwrap();
    assert_eq!(app.name, "Kannaktopus");
    assert!(!app.up);
    assert_eq!(app.url, "http://170.9.238.136:8787");
}

#[test]
fn parse_single_space_before_scheme() {
    // The name has internal spaces and only one space before the scheme.
    let app = parse_constellation_line(
        "  \u{2713} Kannaka Memory (HRM) systemd://kannaka-memory.service",
    )
    .unwrap();
    assert_eq!(app.name, "Kannaka Memory (HRM)");
    assert_eq!(app.url, "systemd://kannaka-memory.service");
    assert!(app.up);
}

#[test]
fn header_divider_blank_skipped() {
    assert!(parse_constellation_line("  \u{1F310} Kannaka Constellation Status").is_none());
    assert!(parse_constellation_line("  \u{2500}\u{2500}\u{2500}\u{2500}").is_none());
    assert!(parse_constellation_line("").is_none());
    assert!(parse_constellation_line("   ").is_none());
}

#[test]
fn parse_app_without_url() {
    let app = parse_constellation_line("\u{2717} Some Service").unwrap();
    assert_eq!(app.name, "Some Service");
    assert_eq!(app.url, "");
    assert!(!app.up);
}

#[test]
fn parse_multibyte_whitespace_before_url_does_not_panic() {
    // NBSP (U+00A0, 2 bytes) immediately before the scheme.
    let app = parse_constellation_line("\u{2713} App Name\u{00A0}https://app.example").unwrap();
    assert!(app.up);
    assert_eq!(app.url, "https://app.example");
    assert_eq!(app.name, "App Name");
    // Ideographic space (U+3000, 3 bytes).
    let app2 = parse_constellation_line("\u{2717} X\u{3000}wss://y.example/socket").unwrap();
    assert_eq!(app2.url, "wss://y.example/socket");
    assert_eq!(app2.name, "X");
}

#[test]
fn parse_multibyte_name() {
    let app = parse_constellation_line("\u{2713} Café Server   https://café.example").unwrap();
    assert!(app.up);
    assert_eq!(app.name, "Café Server");
    assert_eq!(app.url, "https://café.example");
}

#[test]
fn radio_lines_trim_and_drop_blanks() {
    let lines = clean_radio_lines("  Now Playing: X  \n\n  station | time \n");
    assert_eq!(lines, vec!["Now Playing: X", "station | time"]);
}
