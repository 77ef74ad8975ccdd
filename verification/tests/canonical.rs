//! Tests of field sorting and the canonical query string.

use baidu_trans::canon::{canonical_query, sort_pairs, str_eq, str_le};

fn pairs(ps: &[(&str, &str)]) -> Vec<(String, String)> {
    ps.iter().map(|p| (p.0.to_string(), p.1.to_string())).collect()
}

#[test]
fn sort_is_insertion_order_independent() {
    let a = pairs(&[("to", "zh"), ("appid", "A"), ("from", "en")]);
    let b = pairs(&[("appid", "A"), ("from", "en"), ("to", "zh")]);
    let qa = canonical_query(&sort_pairs(a));
    let qb = canonical_query(&sort_pairs(b));
    assert_eq!(qa, qb);
    assert_eq!(qa, "appid=A&from=en&to=zh&");
}

#[test]
fn sort_orders_by_byte_value() {
    let v = pairs(&[("type", "t"), ("outPutType", "o"), ("timestamp", "1")]);
    let sorted = sort_pairs(v);
    let ks: Vec<&str> = sorted.iter().map(|p| p.0.as_str()).collect();
    // capital 'P' sits inside 'outPutType', but ordering goes by the first
    // differing byte: 'o' < 't', then "timestamp" < "type" at 'i' < 'y'
    assert_eq!(ks, vec!["outPutType", "timestamp", "type"]);
}

#[test]
fn sort_keeps_every_field() {
    let v = pairs(&[("b", "2"), ("a", "1"), ("b", "3")]);
    let sorted = sort_pairs(v);
    assert_eq!(sorted.len(), 3);
    assert_eq!(sorted[0].0, "a");
    assert_eq!(sorted[1].0, "b");
    assert_eq!(sorted[2].0, "b");
}

#[test]
fn canonical_query_shape() {
    assert_eq!(canonical_query(&pairs(&[])), "");
    assert_eq!(canonical_query(&pairs(&[("k", "v")])), "k=v&");
    assert_eq!(
        canonical_query(&pairs(&[("k", ""), ("l", "x")])),
        "k=&l=x&"
    );
}

#[test]
fn str_le_is_byte_order() {
    assert!(str_le("appid", "from"));
    assert!(str_le("from", "timestamp"));
    assert!(str_le("timestamp", "to"));
    assert!(str_le("to", "type"));
    assert!(str_le("outPutType", "timestamp"));
    assert!(!str_le("type", "to"));
    assert!(str_le("", "a"));
    assert!(!str_le("a", ""));
    assert!(str_le("a", "ab"));
    assert!(!str_le("ab", "a"));
    assert!(str_le("same", "same"));
}

#[test]
fn str_eq_compares_contents() {
    assert!(str_eq("hello", "hello"));
    assert!(!str_eq("hello", "hellp"));
    assert!(!str_eq("hello", "hell"));
    assert!(str_eq("", ""));
    assert!(str_eq("你好", "你好"));
    assert!(!str_eq("你好", "你坏"));
}
