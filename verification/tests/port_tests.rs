use ledger_store::net::{parse_port_range, parse_port_validator, port_search_order};

#[test]
fn test_parse_port_range() {
    assert_eq!(
        parse_port_range("garbage").unwrap_err(),
        "Expected range format: port1-port2",
        "Should fail for garbage input"
    );
    assert_eq!(
        parse_port_range("1-").unwrap_err(),
        "Error parsing end port: ",
        "Should fail for missing end port"
    );
    assert_eq!(
        parse_port_range("1-2").unwrap(),
        (1, 2),
        "Should parse valid range"
    );
    assert_eq!(
        parse_port_range("1-2-3").unwrap_err(),
        "Expected range format: port1-port2",
        "Should fail for extra parts"
    );
    assert_eq!(
        parse_port_range("2-1").unwrap_err(),
        "End port 1 is less than start port 2",
        "Should fail for inverted range"
    );
}

#[test]
fn test_parse_port_range_more_cases() {
    assert_eq!(parse_port_range("8000-10000").unwrap(), (8000, 10000));
    assert_eq!(parse_port_range("5-5").unwrap(), (5, 5));
    assert_eq!(parse_port_range("+1-+2").unwrap(), (1, 2));
    assert_eq!(
        parse_port_range("-2").unwrap_err(),
        "Error parsing start port: "
    );
    assert_eq!(
        parse_port_range("70000-70001").unwrap_err(),
        "Error parsing start port: 70000"
    );
    assert_eq!(
        parse_port_range("1-70000").unwrap_err(),
        "Error parsing end port: 70000"
    );
    assert_eq!(
        parse_port_range("").unwrap_err(),
        "Expected range format: port1-port2"
    );
}

#[test]
fn test_parse_port_range_echoes_other_alphabets() {
    // a side that is no port is echoed back, whatever characters it holds
    assert_eq!(
        parse_port_range("1-\u{e9}").unwrap_err(),
        "Error parsing end port: \u{e9}"
    );
    assert_eq!(
        parse_port_range("\u{3b1}-2").unwrap_err(),
        "Error parsing start port: \u{3b1}"
    );
    assert_eq!(
        parse_port_range("\u{e9}").unwrap_err(),
        "Expected range format: port1-port2"
    );
}

#[test]
fn test_parse_port_validator_cases() {
    assert_eq!(parse_port_validator("8899").unwrap(), 8899);
    assert_eq!(parse_port_validator("0").unwrap(), 0);
    assert_eq!(parse_port_validator("65535").unwrap(), 65535);
    assert_eq!(
        parse_port_validator("65536").unwrap_err(),
        "Unable to parse 65536"
    );
    assert_eq!(parse_port_validator("x").unwrap_err(), "Unable to parse x");
}

#[test]
fn test_port_search_order_visits_each_port_once() {
    let order = port_search_order((8000, 8020));
    assert_eq!(order.len(), 20);
    let mut seen = vec![false; 20];
    for p in &order {
        assert!((8000..8020).contains(p));
        let i = (p - 8000) as usize;
        assert!(!seen[i], "port visited twice");
        seen[i] = true;
    }
    // consecutive entries wrap around the range
    for w in order.windows(2) {
        let expected = if w[0] == 8019 { 8000 } else { w[0] + 1 };
        assert_eq!(w[1], expected);
    }
}
