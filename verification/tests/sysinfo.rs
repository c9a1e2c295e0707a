use maestro::stats::{state_text, STATE_LIVE, STATE_OFF, STATE_PAUSED, STATE_STARTING};
use maestro::sysinfo::{nth_field, parse_u64, rss_bytes};

#[test]
fn statm_fields() {
    let line = "1234 567 89 1 0 321 0\n";
    assert_eq!(nth_field(line, 0), Some("1234".to_string()));
    assert_eq!(nth_field(line, 1), Some("567".to_string()));
    assert_eq!(nth_field(line, 7), None);
    assert_eq!(nth_field("  a \t bb\n", 1), Some("bb".to_string()));
    assert_eq!(nth_field("", 0), None);
    let text = "x\u{3000}y\u{a0}z";
    assert_eq!(nth_field(text, 2), text.split_whitespace().nth(2).map(|s| s.to_string()));
}

#[test]
fn numbers_parse_like_std() {
    for s in ["0", "42", "+7", "18446744073709551615", "18446744073709551616", "", "+", "-1", "1 ", "0x10", "007"] {
        assert_eq!(parse_u64(s), s.parse::<u64>().ok(), "parsing {s:?}");
    }
}

#[test]
fn resident_bytes() {
    assert_eq!(rss_bytes("1000 250 30 1 0 100 0", 4096), Some(250 * 4096));
    assert_eq!(rss_bytes("1000", 4096), None);
    assert_eq!(rss_bytes("1000 x", 4096), None);
    assert_eq!(rss_bytes("1000 250", 0), None);
    assert_eq!(rss_bytes("1000 250", -1), None);
    assert_eq!(rss_bytes("1 18446744073709551615", 2), None);
}

#[test]
fn engine_states_are_named() {
    assert_eq!(state_text(STATE_STARTING), "Loading soundfonts…");
    assert_eq!(state_text(STATE_LIVE), "Ready");
    assert_eq!(state_text(STATE_PAUSED), "Paused after a quiet spell");
    assert_eq!(state_text(STATE_OFF), "No engine loaded");
    assert_eq!(state_text(99), "No engine loaded");
}
