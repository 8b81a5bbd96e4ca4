use metrics_snmp::ValueType::{Integer, OctetString, Unknown};
use metrics_snmp::{create_targets, get_targets_from_nickname, Target, TargetError, ValueType};

fn triples(ts: &[Target]) -> Vec<(String, String, ValueType)> {
    ts.iter()
        .map(|t| (t.name().to_string(), t.oid().to_string(), t.vtype()))
        .collect()
}

fn expect(rows: &[(&str, &str, ValueType)]) -> Vec<(String, String, ValueType)> {
    rows.iter()
        .map(|(n, o, t)| (n.to_string(), o.to_string(), *t))
        .collect()
}

#[test]
fn nickname_desc_table() {
    let ts = get_targets_from_nickname("desc").unwrap();
    assert_eq!(
        triples(&ts),
        expect(&[("description", "1.3.6.1.2.1.1.1.0", ValueType::OctetString)])
    );
}

#[test]
fn nickname_ss_table() {
    let ts = get_targets_from_nickname("ss").unwrap();
    assert_eq!(
        triples(&ts),
        expect(&[
            ("ssSwapIn", "1.3.6.1.4.1.2021.11.3.0", Integer),
            ("ssSwapOut", "1.3.6.1.4.1.2021.11.4.0", Integer),
            ("ssIOSent", "1.3.6.1.4.1.2021.11.5.0", Integer),
            ("ssIOReceive", "1.3.6.1.4.1.2021.11.6.0", Integer),
            ("ssSysInterrupts", "1.3.6.1.4.1.2021.11.7.0", Integer),
            ("ssSysContext", "1.3.6.1.4.1.2021.11.8.0", Integer),
            ("ssCpuUser", "1.3.6.1.4.1.2021.11.9.0", Unknown),
            ("ssCpuSystem", "1.3.6.1.4.1.2021.11.10.0", Unknown),
            ("ssCpuIdle", "1.3.6.1.4.1.2021.11.11.0", Unknown),
        ])
    );
}

#[test]
fn nickname_la_table() {
    let ts = get_targets_from_nickname("la").unwrap();
    assert_eq!(
        triples(&ts),
        expect(&[
            ("laLoad.1", "1.3.6.1.4.1.2021.10.1.3.1.0", ValueType::OctetString),
            ("laLoad.2", "1.3.6.1.4.1.2021.10.1.3.2.0", ValueType::OctetString),
            ("laLoad.3", "1.3.6.1.4.1.2021.10.1.3.3.0", ValueType::OctetString),
        ])
    );
}

#[test]
fn nickname_dsk_table() {
    let ts = get_targets_from_nickname("dsk").unwrap();
    assert_eq!(
        triples(&ts),
        expect(&[
            ("dskPath", "1.3.6.1.4.1.2021.9.1.2.0", OctetString),
            ("dskDevice", "1.3.6.1.4.1.2021.9.1.3.0", OctetString),
            ("dskTotal", "1.3.6.1.4.1.2021.9.1.6.0", Integer),
            ("dskAvail", "1.3.6.1.4.1.2021.9.1.7.0", Integer),
            ("dskUsed", "1.3.6.1.4.1.2021.9.1.8.0", Integer),
            ("dskPercent", "1.3.6.1.4.1.2021.9.1.9.0", Integer),
            ("dskPercentNode", "1.3.6.1.4.1.2021.9.1.10.0", Integer),
        ])
    );
}

#[test]
fn nickname_mem_table() {
    let ts = get_targets_from_nickname("mem").unwrap();
    assert_eq!(
        triples(&ts),
        expect(&[
            ("memTotalSwap", "1.3.6.1.4.1.2021.4.3.0", Integer),
            ("memAvailSwap", "1.3.6.1.4.1.2021.4.4.0", Integer),
            ("memTotalReal", "1.3.6.1.4.1.2021.4.5.0", Integer),
            ("memAvailReal", "1.3.6.1.4.1.2021.4.6.0", Integer),
            ("memTotalFree", "1.3.6.1.4.1.2021.4.11.0", Integer),
            ("memShared", "1.3.6.1.4.1.2021.4.13.0", Integer),
            ("memBuffer", "1.3.6.1.4.1.2021.4.14.0", Integer),
            ("memCached", "1.3.6.1.4.1.2021.4.15.0", Integer),
        ])
    );
}

#[test]
fn nickname_if_table() {
    let ts = get_targets_from_nickname("if").unwrap();
    assert_eq!(
        triples(&ts),
        expect(&[("ifInOctets", "1.3.6.1.2.1.2.2.1.10.1", ValueType::Counter32)])
    );
}

#[test]
fn unknown_nickname_is_unsupported() {
    for name in ["cpu", "", "DESC", "mem ", "iff"] {
        match get_targets_from_nickname(name) {
            Err(TargetError::UnsupportedMetric(n)) => assert_eq!(n, name),
            _ => panic!("expected an unsupported metric for {:?}", name),
        }
    }
}

#[test]
fn oid_list_single_entry() {
    let ts = create_targets("1.2.3").unwrap();
    assert_eq!(triples(&ts), expect(&[("1.2.3", "1.2.3", ValueType::Unknown)]));
}

#[test]
fn oid_list_named_entry() {
    let ts = create_targets("1.2.3:foo").unwrap();
    assert_eq!(triples(&ts), expect(&[("foo", "1.2.3", ValueType::Unknown)]));
}

#[test]
fn oid_list_two_entries_in_order() {
    let ts = create_targets("1.2.3:foo,4.5.6:bar").unwrap();
    assert_eq!(
        triples(&ts),
        expect(&[
            ("foo", "1.2.3", ValueType::Unknown),
            ("bar", "4.5.6", ValueType::Unknown),
        ])
    );
}

#[test]
fn oid_list_three_parts_uses_first() {
    let ts = create_targets("1.2.3:a:b,7").unwrap();
    assert_eq!(
        triples(&ts),
        expect(&[
            ("1.2.3", "1.2.3", ValueType::Unknown),
            ("7", "7", ValueType::Unknown),
        ])
    );
}

#[test]
fn oid_list_empty_is_error() {
    assert!(matches!(create_targets(""), Err(TargetError::EmptyOidList)));
}

#[test]
fn target_new_reads_type_name() {
    let t = Target::new("x", "1.2", "Counter64");
    assert_eq!(t.vtype(), ValueType::Counter64);
    assert_eq!(Target::new("x", "1.2", "Opaque").vtype(), ValueType::Opaque);
    assert_eq!(Target::new("x", "1.2", "counter64").vtype(), ValueType::Unknown);
    assert_eq!(Target::new("x", "1.2", "").vtype(), ValueType::Unknown);
    assert_eq!(t.name(), "x");
    assert_eq!(t.oid(), "1.2");
}
