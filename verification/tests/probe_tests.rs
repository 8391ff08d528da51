use chazi::probe::{generate_probe, parse_probe, probe_marker_str, ProbeDecode};

fn expect_decoded(line: &str) -> (String, String) {
    match parse_probe(line) {
        ProbeDecode::Decoded { prefix, payload } => (prefix, payload),
        ProbeDecode::NoMarker => panic!("expected a decoded probe, got no marker: {}", line),
        ProbeDecode::BadFrame => panic!("expected a decoded probe, got a bad frame: {}", line),
    }
}

#[test]
fn test_probe() {
    let probe = generate_probe("world");
    let line = format!("hello{}", probe);
    let (prefix, content) = expect_decoded(line.as_str());
    assert_eq!(prefix, "hello");
    assert_eq!(content, "world");
}

#[test]
fn test_probe_no_prefix() {
    let probe = generate_probe("42");
    let (prefix, content) = expect_decoded(probe.as_str());
    assert_eq!(prefix, "");
    assert_eq!(content, "42");
}

#[test]
fn test_probe_empty_content() {
    let probe = generate_probe("");
    let (prefix, content) = expect_decoded(probe.as_str());
    assert_eq!(prefix, "");
    assert_eq!(content, "");

    let with_prefix = format!("b166er{}", probe);
    let (prefix, content) = expect_decoded(with_prefix.as_str());
    assert_eq!(prefix, "b166er");
    assert_eq!(content, "");
}

#[test]
fn test_probe_wire_format() {
    let probe = generate_probe("abc");
    assert_eq!(probe, format!("abc_3{}", probe_marker_str()));
}

#[test]
fn test_probe_payload_with_underscores_and_digits() {
    let probe = generate_probe("a_1_22");
    let line = format!("log 7_x{}", probe);
    let (prefix, content) = expect_decoded(line.as_str());
    assert_eq!(prefix, "log 7_x");
    assert_eq!(content, "a_1_22");
}

#[test]
fn test_probe_empty_prefix_and_payload_roundtrip() {
    let (prefix, content) = expect_decoded(generate_probe("_9").as_str());
    assert_eq!(prefix, "");
    assert_eq!(content, "_9");
}

#[test]
fn test_ordinary_line_is_not_a_probe() {
    assert!(matches!(parse_probe("just some log output"), ProbeDecode::NoMarker));
    assert!(matches!(parse_probe(""), ProbeDecode::NoMarker));
    // The marker alone in the middle of a line is not a frame ending.
    let middle = format!("a{}b", probe_marker_str());
    assert!(matches!(parse_probe(middle.as_str()), ProbeDecode::NoMarker));
}

#[test]
fn test_bad_frames_are_detected() {
    // Marker with nothing before it: no underscore, no length.
    assert!(matches!(parse_probe(probe_marker_str()), ProbeDecode::BadFrame));
    // No underscore anywhere before the marker.
    let no_underscore = format!("abc{}", probe_marker_str());
    assert!(matches!(parse_probe(no_underscore.as_str()), ProbeDecode::BadFrame));
    // A non-numeric length field.
    let bad_len = format!("abc_xy{}", probe_marker_str());
    assert!(matches!(parse_probe(bad_len.as_str()), ProbeDecode::BadFrame));
    // A length larger than what precedes the underscore.
    let too_long = format!("abc_99{}", probe_marker_str());
    assert!(matches!(parse_probe(too_long.as_str()), ProbeDecode::BadFrame));
    // An empty length field.
    let empty_len = format!("abc_{}", probe_marker_str());
    assert!(matches!(parse_probe(empty_len.as_str()), ProbeDecode::BadFrame));
    // A length field too large for any machine.
    let huge_len = format!("abc_99999999999999999999999{}", probe_marker_str());
    assert!(matches!(parse_probe(huge_len.as_str()), ProbeDecode::BadFrame));
}
