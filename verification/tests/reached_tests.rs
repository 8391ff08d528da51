use chazi::digits::{parse_u64_digits, u64_to_dec_string};
use chazi::probe::generate_probe;
use chazi::reached::{last, never, nth, parse_reach_info, validate_reaches, ReachLineInfo};

#[test]
fn test_decimal_digits_exact() {
    assert_eq!(u64_to_dec_string(0), "0");
    assert_eq!(u64_to_dec_string(7), "7");
    assert_eq!(u64_to_dec_string(10), "10");
    assert_eq!(u64_to_dec_string(65535), "65535");
    assert_eq!(u64_to_dec_string(18446744073709551615), "18446744073709551615");
}

#[test]
fn test_parse_digits() {
    assert_eq!(parse_u64_digits("0"), Some(0));
    assert_eq!(parse_u64_digits("00123"), Some(123));
    assert_eq!(parse_u64_digits("18446744073709551615"), Some(18446744073709551615));
    assert_eq!(parse_u64_digits("18446744073709551616"), None);
    assert_eq!(parse_u64_digits(""), None);
    assert_eq!(parse_u64_digits("12a"), None);
    assert_eq!(parse_u64_digits("-1"), None);
    assert_eq!(parse_u64_digits("+1"), None);
}

#[test]
fn test_parse_reach_info_variants() {
    assert_eq!(parse_reach_info("$"), Some(ReachLineInfo::Last));
    assert_eq!(parse_reach_info("!"), Some(ReachLineInfo::Never));
    assert_eq!(parse_reach_info("0"), Some(ReachLineInfo::Nth(0)));
    assert_eq!(parse_reach_info("12"), Some(ReachLineInfo::Nth(12)));
    assert_eq!(parse_reach_info("65535"), Some(ReachLineInfo::Nth(65535)));
    assert_eq!(parse_reach_info("65536"), None);
    assert_eq!(parse_reach_info(""), None);
    assert_eq!(parse_reach_info("p"), None);
    assert_eq!(parse_reach_info("$$"), None);
    assert_eq!(parse_reach_info("1 "), None);
}

#[test]
fn test_payload_round_trip() {
    for info in [
        ReachLineInfo::Nth(0),
        ReachLineInfo::Nth(9),
        ReachLineInfo::Nth(65535),
        ReachLineInfo::Last,
        ReachLineInfo::Never,
    ] {
        let payload = info.payload_string();
        assert_eq!(parse_reach_info(payload.as_str()), Some(info));
    }
}

#[test]
fn test_emission_lines_are_probe_frames() {
    assert_eq!(nth(3), generate_probe("3"));
    assert_eq!(nth(65535), generate_probe("65535"));
    assert_eq!(last(), generate_probe("$"));
    assert_eq!(never(), generate_probe("!"));
}

#[test]
fn test_sequencer_accepts_ordered_runs() {
    assert!(validate_reaches(&[ReachLineInfo::Last]));
    assert!(validate_reaches(&[ReachLineInfo::Nth(0), ReachLineInfo::Last]));
    assert!(validate_reaches(&[ReachLineInfo::Nth(0), ReachLineInfo::Nth(1), ReachLineInfo::Last]));
    assert!(validate_reaches(&[ReachLineInfo::Nth(0), ReachLineInfo::Nth(1), ReachLineInfo::Nth(2), ReachLineInfo::Nth(3), ReachLineInfo::Last]));
}

#[test]
fn test_sequencer_rejects_everything_else() {
    // Empty: Last was never reached.
    assert!(!validate_reaches(&[]));
    // No closing Last.
    assert!(!validate_reaches(&[ReachLineInfo::Nth(0)]));
    assert!(!validate_reaches(&[ReachLineInfo::Nth(0), ReachLineInfo::Nth(1)]));
    // Not starting at zero.
    assert!(!validate_reaches(&[ReachLineInfo::Nth(1), ReachLineInfo::Last]));
    // A repeat, and a gap.
    assert!(!validate_reaches(&[ReachLineInfo::Nth(0), ReachLineInfo::Nth(0), ReachLineInfo::Last]));
    assert!(!validate_reaches(&[ReachLineInfo::Nth(0), ReachLineInfo::Nth(2), ReachLineInfo::Last]));
    // Out of order.
    assert!(!validate_reaches(&[ReachLineInfo::Nth(1), ReachLineInfo::Nth(0), ReachLineInfo::Last]));
    // Never anywhere is fatal.
    assert!(!validate_reaches(&[ReachLineInfo::Never]));
    assert!(!validate_reaches(&[ReachLineInfo::Nth(0), ReachLineInfo::Never, ReachLineInfo::Last]));
    assert!(!validate_reaches(&[ReachLineInfo::Nth(0), ReachLineInfo::Last, ReachLineInfo::Never]));
    // Nothing may follow Last.
    assert!(!validate_reaches(&[ReachLineInfo::Last, ReachLineInfo::Last]));
    assert!(!validate_reaches(&[ReachLineInfo::Nth(0), ReachLineInfo::Last, ReachLineInfo::Nth(1)]));
}
