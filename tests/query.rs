use metrics_snmp::probe::format_metric_line;
use metrics_snmp::text::split_text;
use metrics_snmp::{
    create_targets, get_targets_from_nickname, parse_oid, render_value, Probe, ProbeError, Reply,
    Scalar, Target, ValueType,
};

#[test]
fn oid_parses_into_numbers() {
    assert_eq!(parse_oid("1.3.6.1.2.1.1.1.0"), Some(vec![1, 3, 6, 1, 2, 1, 1, 1, 0]));
    assert_eq!(parse_oid("7"), Some(vec![7]));
    assert_eq!(parse_oid("4294967295.0"), Some(vec![4294967295, 0]));
}

#[test]
fn oid_malformed_components() {
    assert_eq!(parse_oid("1.3.a.0"), None);
    assert_eq!(parse_oid(""), None);
    assert_eq!(parse_oid("1..2"), None);
    assert_eq!(parse_oid("1.2."), None);
    assert_eq!(parse_oid("4294967296"), None);
    assert_eq!(parse_oid("-1.2"), None);
    assert_eq!(parse_oid("1. 2"), None);
}

#[test]
fn split_keeps_empty_pieces() {
    assert_eq!(split_text("a,b", ','), vec!["a".to_string(), "b".to_string()]);
    assert_eq!(split_text("", ','), vec!["".to_string()]);
    assert_eq!(split_text(",x,", ','), vec!["".to_string(), "x".to_string(), "".to_string()]);
}

#[test]
fn counter32_expected_counter32_is_unquoted() {
    let r = render_value(ValueType::Counter32, &Some(Scalar::Counter32(42)));
    assert_eq!(r, Some("42".to_string()));
}

#[test]
fn counter32_expected_octet_string_is_skipped() {
    let r = render_value(ValueType::OctetString, &Some(Scalar::Counter32(42)));
    assert_eq!(r, None);
}

#[test]
fn unknown_type_quotes_octet_string() {
    let r = render_value(ValueType::Unknown, &Some(Scalar::OctetString(b"Linux host 5.4".to_vec())));
    assert_eq!(r, Some("\"Linux host 5.4\"".to_string()));
}

#[test]
fn octet_string_decoding_is_lossy() {
    let r = render_value(ValueType::Unknown, &Some(Scalar::OctetString(vec![0x66, 0xff, 0x67])));
    assert_eq!(r, Some(format!("\"f{}g\"", '\u{FFFD}')));
}

#[test]
fn quoted_text_escapes_quotes_and_backslashes() {
    let r = render_value(ValueType::Opaque, &Some(Scalar::Opaque(b"a\"b\\c".to_vec())));
    assert_eq!(r, Some("\"a\\\"b\\\\c\"".to_string()));
}

#[test]
fn numeric_types_render_decimal() {
    assert_eq!(render_value(ValueType::Integer, &Some(Scalar::Integer(-5))), Some("-5".to_string()));
    assert_eq!(
        render_value(ValueType::Integer, &Some(Scalar::Integer(i64::MIN))),
        Some("-9223372036854775808".to_string())
    );
    assert_eq!(render_value(ValueType::Integer, &Some(Scalar::Integer(0))), Some("0".to_string()));
    assert_eq!(
        render_value(ValueType::Counter64, &Some(Scalar::Counter64(u64::MAX))),
        Some("18446744073709551615".to_string())
    );
    assert_eq!(
        render_value(ValueType::Unsigned32, &Some(Scalar::Unsigned32(1000))),
        Some("1000".to_string())
    );
}

#[test]
fn unknown_type_accepts_each_supported_tag() {
    let u = ValueType::Unknown;
    assert_eq!(render_value(u, &Some(Scalar::Counter32(1))), Some("1".to_string()));
    assert_eq!(render_value(u, &Some(Scalar::Unsigned32(2))), Some("2".to_string()));
    assert_eq!(render_value(u, &Some(Scalar::Counter64(3))), Some("3".to_string()));
    assert_eq!(render_value(u, &Some(Scalar::Integer(-4))), Some("-4".to_string()));
    assert_eq!(render_value(u, &Some(Scalar::Opaque(b"x".to_vec()))), Some("\"x\"".to_string()));
    assert_eq!(render_value(u, &Some(Scalar::Other)), None);
    assert_eq!(render_value(u, &None), None);
}

#[test]
fn mismatched_tags_are_skipped() {
    assert_eq!(render_value(ValueType::Integer, &Some(Scalar::Counter32(1))), None);
    assert_eq!(render_value(ValueType::Counter64, &Some(Scalar::Counter32(1))), None);
    assert_eq!(render_value(ValueType::OctetString, &Some(Scalar::Opaque(b"x".to_vec()))), None);
    assert_eq!(render_value(ValueType::Counter32, &Some(Scalar::Other)), None);
}

#[test]
fn metric_line_layout() {
    let line = format_metric_line("web1", "ifInOctets", "if", "42", 1700000000);
    assert_eq!(line, "web1.snmp.ifInOctets.if 42 1700000000");
}

#[test]
fn probe_emits_counter_line() {
    let targets = get_targets_from_nickname("if").unwrap();
    let mut p = Probe::new("127.0.0.1", "if", targets).ok().unwrap();
    assert_eq!(p.request(), Some(&vec![1, 3, 6, 1, 2, 1, 2, 2, 1, 10, 1]));
    let line = p.receive(Reply::Answer(Some(Scalar::Counter32(12345))), 1700000000);
    assert_eq!(line, Some("127.0.0.1.snmp.ifInOctets.if 12345 1700000000".to_string()));
    assert_eq!(p.request(), None);
}

#[test]
fn probe_skips_mismatched_type_and_goes_on() {
    let targets = vec![
        Target::new("a", "1.2.3", "OctetString"),
        Target::new("b", "1.2.4", "Unknown"),
    ];
    let mut p = Probe::new("h", "n", targets).ok().unwrap();
    assert_eq!(p.receive(Reply::Answer(Some(Scalar::Counter32(1))), 10), None);
    assert_eq!(p.request(), Some(&vec![1, 2, 4]));
    let line = p.receive(Reply::Answer(Some(Scalar::OctetString(b"up".to_vec()))), 11);
    assert_eq!(line, Some("h.snmp.b.n \"up\" 11".to_string()));
    assert!(!p.aborted());
}

#[test]
fn probe_stops_after_transport_failure() {
    let targets = create_targets("1.1,1.2,1.3").unwrap();
    let mut p = Probe::new("h", "x", targets).ok().unwrap();
    assert!(p.receive(Reply::Answer(Some(Scalar::Integer(1))), 5).is_some());
    assert_eq!(p.receive(Reply::Failed, 6), None);
    assert!(p.aborted());
    assert_eq!(p.request(), None);
    assert_eq!(p.receive(Reply::Answer(Some(Scalar::Integer(3))), 7), None);
    assert_eq!(p.request(), None);
}

#[test]
fn probe_refuses_malformed_oid_before_any_request() {
    let targets = vec![Target::new("ok", "1.3.6.1", "Unknown"), Target::new("bad", "1.3.a.0", "Unknown")];
    match Probe::new("h", "x", targets) {
        Err(ProbeError::MalformedOid(oid)) => assert_eq!(oid, "1.3.a.0"),
        Ok(_) => panic!("a malformed OID must stop the probe"),
    }
}
