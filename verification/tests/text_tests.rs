use search_controller::text::{decimal_i64, decimal_u64, trim_end_char, KeyValue};

#[test]
fn decimal_rendering_matches_to_string() {
    for n in [0u64, 1, 9, 10, 11, 99, 100, 1000, 7200000, 1073741824, u64::MAX] {
        assert_eq!(decimal_u64(n), n.to_string());
    }
}

#[test]
fn trimming_trailing_characters() {
    assert_eq!(trim_end_char("a//", '/'), "a");
    assert_eq!(trim_end_char("a/b", '/'), "a/b");
    assert_eq!(trim_end_char("", '/'), "");
    assert_eq!(trim_end_char("é//", '/'), "é");
    assert_eq!(trim_end_char("x/y/", '/'), "x/y/".trim_end_matches('/'));
}

#[test]
fn key_value_pairs() {
    let kv = KeyValue::new("app", "search-consumer");
    assert_eq!(kv.key, "app");
    assert_eq!(kv.value, "search-consumer");
}

#[test]
fn signed_decimal_rendering_matches_to_string() {
    for i in [0i64, 5, -5, 7200000, -1, i64::MAX, i64::MIN] {
        assert_eq!(decimal_i64(i), i.to_string());
    }
}
