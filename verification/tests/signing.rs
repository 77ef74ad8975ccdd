//! Differential tests of the signing functions against the MD5 crate.

use baidu_trans::domain::Domain;
use baidu_trans::sign::{sign_document, sign_domain, sign_image, sign_text};
use md5::Digest;

fn md5_hex(data: &[u8]) -> String {
    format!("{:x}", md5::Md5::digest(data))
}

#[test]
fn sign_text_matches_reference_md5() {
    let expected = md5_hex("123hello1000abc".as_bytes());
    assert_eq!(sign_text("123", "hello", 1000, "abc"), expected);
}

#[test]
fn sign_text_fixture() {
    assert_eq!(
        sign_text("123", "hello", 1000, "abc"),
        "8b56404b7ad5cf921e62812960804f32"
    );
}

#[test]
fn sign_text_deterministic() {
    let a = sign_text("app", "query text", 1234567890, "secret");
    let b = sign_text("app", "query text", 1234567890, "secret");
    assert_eq!(a, b);
}

#[test]
fn sign_text_sensitive_to_each_input() {
    let base = sign_text("123", "hello", 1000, "abc");
    assert_ne!(sign_text("123", "hellp", 1000, "abc"), base);
    assert_ne!(sign_text("123", "hello", 1001, "abc"), base);
    assert_ne!(sign_text("123", "hello", 1000, "abd"), base);
    assert_ne!(sign_text("124", "hello", 1000, "abc"), base);
}

#[test]
fn sign_text_non_ascii_query() {
    let expected = md5_hex("123你好1000abc".as_bytes());
    assert_eq!(sign_text("123", "你好", 1000, "abc"), expected);
}

#[test]
fn sign_image_nested_digest() {
    let data = vec![1u8, 2, 3];
    let inner = md5_hex(&data);
    assert_eq!(inner, "5289df737df57326fcdd22597afb1fac");
    let expected = md5_hex(format!("app{}1000APICUIDmacsecret", inner).as_bytes());
    assert_eq!(
        sign_image("app", &data, 1000, "APICUID", "mac", "secret"),
        expected
    );
}

#[test]
fn sign_image_sensitive_to_bytes() {
    let a = vec![1u8, 2, 3];
    let b = vec![1u8, 2, 4];
    assert_eq!(a.len(), b.len());
    assert_ne!(md5_hex(&a), md5_hex(&b));
    let sa = sign_image("app", &a, 1000, "APICUID", "mac", "secret");
    let sb = sign_image("app", &b, 1000, "APICUID", "mac", "secret");
    assert_ne!(sa, sb);
}

#[test]
fn sign_domain_concatenation() {
    let expected = md5_hex("appq1000electronicskey".as_bytes());
    assert_eq!(
        sign_domain("app", "q", 1000, Domain::Electronics, "key"),
        expected
    );
}

#[test]
fn sign_document_concatenation() {
    let file_hex = md5_hex(b"file bytes");
    let expected = md5_hex(format!("appid=a&to=b&{}key", file_hex).as_bytes());
    assert_eq!(sign_document("appid=a&to=b&", &file_hex, "key"), expected);
}
