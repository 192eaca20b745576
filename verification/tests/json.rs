use monero_node_module::Json;

fn nested(depth: usize) -> String {
    let mut s = String::new();
    for _ in 0..depth {
        s.push('[');
    }
    for _ in 0..depth {
        s.push(']');
    }
    s
}

#[test]
fn text_becomes_a_value() {
    let j = Json::parse(r#" {"b": [1, -2, 1.5, null, true], "a": "x\u00e9"} "#).unwrap();
    assert_eq!(j.to_text(), r#"{"a":"xé","b":[1,-2,1.5,null,true]}"#);
    assert_eq!(j.get("a").unwrap().as_str(), Some("xé"));
    assert!(j.get("c").is_none());
    assert!(j.get("a").unwrap().get("a").is_none());
    match j.get("b").unwrap() {
        Json::Array(items) => {
            assert_eq!(items[0].as_u64(), Some(1));
            assert_eq!(items[0].as_i64(), Some(1));
            assert_eq!(items[1].as_u64(), None);
            assert_eq!(items[1].as_i64(), Some(-2));
            assert_eq!(items[2].as_i64(), None);
            assert_eq!(items[2].as_u64(), None);
            assert!(matches!(items[3], Json::Null));
            assert_eq!(items[4].as_bool(), Some(true));
            assert_eq!(items[4].as_str(), None);
        }
        other => panic!("{other:?}"),
    }
}

#[test]
fn bytes_become_a_value() {
    assert_eq!(Json::parse_bytes(b"{\"k\": 7}").unwrap().get("k").unwrap().as_u64(), Some(7));
    assert!(Json::parse_bytes(b"\"\xff\"").is_none());
    assert!(Json::parse_bytes(b"").is_none());
}

#[test]
fn what_is_not_json_is_nothing() {
    for s in ["", "{", "nul", "{\"a\":1,}", "1 2", "'x'"] {
        assert!(Json::parse(s).is_none(), "{s}");
    }
}

#[test]
fn numbers_keep_their_range() {
    let max = Json::parse("18446744073709551615").unwrap();
    assert_eq!(max.as_u64(), Some(u64::MAX));
    assert_eq!(max.as_i64(), None);
    assert_eq!(max.to_text(), "18446744073709551615");
    let min = Json::parse("-9223372036854775808").unwrap();
    assert_eq!(min.as_i64(), Some(i64::MIN));
    assert_eq!(min.as_u64(), None);
    assert_eq!(min.to_text(), "-9223372036854775808");
    let big = Json::parse("18446744073709551616").unwrap();
    assert_eq!(big.as_u64(), None);
    assert_eq!(big.to_text(), "1.8446744073709552e+19");
    let small = Json::parse("0.1").unwrap();
    assert_eq!(small.to_text(), "0.1");
}

#[test]
fn what_is_printed_reads_back() {
    let j = Json::Object(vec![
        ("\u{1}".to_string(), Json::Text("a\"\\\n\u{7f}\u{2028}\u{1f600}".to_string())),
        ("a".to_string(), Json::Array(vec![Json::Null, Json::Bool(false), Json::Integer(-5)])),
        ("b".to_string(), Json::Object(vec![])),
        ("é".to_string(), Json::Integer(u64::MAX as i128)),
    ]);
    let back = Json::parse(&j.to_text()).unwrap();
    assert_eq!(format!("{back:?}"), format!("{j:?}"));
}

#[test]
fn nesting_is_followed_this_deep() {
    assert!(Json::parse(&nested(127)).is_some());
    assert!(Json::parse(&nested(128)).is_none());
}

#[test]
fn taking_a_member_moves_it_out() {
    let j = Json::parse(r#"{"a":{"x":[1]},"b":2}"#).unwrap();
    assert_eq!(j.take("a").unwrap().to_text(), r#"{"x":[1]}"#);
    assert!(Json::parse("[]").unwrap().take("a").is_none());
    assert!(Json::parse(r#"{"b":2}"#).unwrap().take("a").is_none());
}

#[test]
fn a_member_is_placed_by_name() {
    let mut members = vec![
        ("a".to_string(), Json::Integer(1)),
        ("c".to_string(), Json::Integer(3)),
    ];
    monero_node_module::json::place_member(&mut members, "b", Json::Integer(2));
    monero_node_module::json::place_member(&mut members, "d", Json::Integer(4));
    let names: Vec<&str> = members.iter().map(|m| m.0.as_str()).collect();
    assert_eq!(names, ["a", "b", "c", "d"]);
}
