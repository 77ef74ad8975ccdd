//! Tests of the form builders: field sets, flag handling, and signatures.

use baidu_trans::config::Config;
use baidu_trans::domain::Domain;
use baidu_trans::form::{
    build_doc_count_form, build_doc_form, build_domain_form, build_image_form, build_text_form,
    build_text_form_now,
};
use baidu_trans::lang::Lang;
use md5::Digest;

fn md5_hex(data: &[u8]) -> String {
    format!("{:x}", md5::Md5::digest(data))
}

fn get<'a>(form: &'a [(String, String)], key: &str) -> Option<&'a str> {
    form.iter().find(|p| p.0 == key).map(|p| p.1.as_str())
}

fn keys(form: &[(String, String)]) -> Vec<&str> {
    form.iter().map(|p| p.0.as_str()).collect()
}

fn test_config() -> Config {
    let mut c = Config::new("APPID".to_string(), "SECRET".to_string());
    c.set_from(Lang::En);
    c.set_to(Lang::Zh);
    c
}

#[test]
fn text_form_base_fields() {
    let c = test_config();
    let form = build_text_form(&c, "hello", 1000);
    assert_eq!(keys(&form), vec!["q", "from", "to", "appid", "salt", "sign"]);
    assert_eq!(get(&form, "q"), Some("hello"));
    assert_eq!(get(&form, "from"), Some("en"));
    assert_eq!(get(&form, "to"), Some("zh"));
    assert_eq!(get(&form, "appid"), Some("APPID"));
    assert_eq!(get(&form, "salt"), Some("1000"));
    assert_eq!(
        get(&form, "sign"),
        Some(md5_hex("APPIDhello1000SECRET".as_bytes()).as_str())
    );
}

#[test]
fn text_form_dict_flag_adds_both_fields() {
    let mut c = test_config();
    c.open_dict = true;
    c.open_tts = false;
    let form = build_text_form(&c, "hello", 1000);
    assert_eq!(get(&form, "tts"), Some("1"));
    assert_eq!(get(&form, "dict"), Some("1"));
}

#[test]
fn text_form_tts_flag_adds_both_fields() {
    let mut c = test_config();
    c.open_tts = true;
    let form = build_text_form(&c, "hello", 1000);
    assert_eq!(get(&form, "tts"), Some("1"));
    assert_eq!(get(&form, "dict"), Some("1"));
}

#[test]
fn text_form_without_flags_has_no_feature_fields() {
    let c = test_config();
    let form = build_text_form(&c, "hello", 1000);
    assert_eq!(get(&form, "tts"), None);
    assert_eq!(get(&form, "dict"), None);
}

#[test]
fn text_form_action_flag() {
    let mut c = test_config();
    c.open_action = true;
    let form = build_text_form(&c, "hello", 1000);
    assert_eq!(get(&form, "action"), Some("1"));

    c.open_action = false;
    let form = build_text_form(&c, "hello", 1000);
    assert!(!form.iter().any(|p| p.0 == "action"));
}

#[test]
fn text_form_now_has_numeric_salt() {
    let c = test_config();
    let form = build_text_form_now(&c, "hello");
    let salt = get(&form, "salt").unwrap();
    assert!(!salt.is_empty());
    assert!(salt.chars().all(|ch| ch.is_ascii_digit()));
    assert!(get(&form, "sign").is_some());
}

#[test]
fn domain_form_fields() {
    let c = test_config();
    let form = build_domain_form(&c, "hello", 1000, Domain::Finance);
    assert_eq!(
        keys(&form),
        vec!["q", "from", "to", "appid", "salt", "domain", "sign"]
    );
    assert_eq!(get(&form, "domain"), Some("finance"));
    assert_eq!(
        get(&form, "sign"),
        Some(md5_hex("APPIDhello1000financeSECRET".as_bytes()).as_str())
    );
}

#[test]
fn image_form_fields() {
    let c = test_config();
    let data = vec![1u8, 2, 3];
    let form = build_image_form(&c, "a.png", data.clone(), 1000, "APICUID", "mac", "3", None);
    assert_eq!(form.file_name, "a.png");
    assert_eq!(form.image, data);
    assert_eq!(
        keys(&form.fields),
        vec!["from", "to", "appid", "salt", "cuid", "mac", "version", "sign"]
    );
    assert_eq!(get(&form.fields, "cuid"), Some("APICUID"));
    assert_eq!(get(&form.fields, "mac"), Some("mac"));
    assert_eq!(get(&form.fields, "version"), Some("3"));
    let inner = md5_hex(&data);
    let expected = md5_hex(format!("APPID{}1000APICUIDmacSECRET", inner).as_bytes());
    assert_eq!(get(&form.fields, "sign"), Some(expected.as_str()));
}

#[test]
fn image_form_paste_field() {
    let c = test_config();
    let form = build_image_form(
        &c,
        "a.png",
        vec![9u8],
        1000,
        "APICUID",
        "mac",
        "3",
        Some("1".to_string()),
    );
    assert_eq!(get(&form.fields, "paste"), Some("1"));
}

#[test]
fn doc_count_form_sorted_fields_and_sign() {
    let c = test_config();
    let data = b"document body".to_vec();
    let form = build_doc_count_form(&c, data.clone(), "a.txt", "txt", 1000);
    assert_eq!(form.file_name, "a.txt");
    assert_eq!(form.file, data);
    assert_eq!(
        keys(&form.fields),
        vec!["appid", "from", "timestamp", "to", "type", "sign"]
    );
    assert_eq!(get(&form.fields, "timestamp"), Some("1000"));
    let query = "appid=APPID&from=en&timestamp=1000&to=zh&type=txt&";
    let expected = md5_hex(format!("{}{}SECRET", query, md5_hex(&data)).as_bytes());
    assert_eq!(get(&form.fields, "sign"), Some(expected.as_str()));
}

#[test]
fn doc_form_sorted_fields_and_sign() {
    let c = test_config();
    let data = b"document body".to_vec();
    let form = build_doc_form(&c, data.clone(), "a.txt", "txt", "docx", 1000);
    assert_eq!(
        keys(&form.fields),
        vec!["appid", "from", "outPutType", "timestamp", "to", "type", "sign"]
    );
    assert_eq!(get(&form.fields, "outPutType"), Some("docx"));
    let query = "appid=APPID&from=en&outPutType=docx&timestamp=1000&to=zh&type=txt&";
    let expected = md5_hex(format!("{}{}SECRET", query, md5_hex(&data)).as_bytes());
    assert_eq!(get(&form.fields, "sign"), Some(expected.as_str()));
}

#[test]
fn doc_count_form_default_languages() {
    let c = Config::new("A".to_string(), "S".to_string());
    let form = build_doc_count_form(&c, vec![0u8], "f.txt", "txt", 7);
    let query = "appid=A&from=auto&timestamp=7&to=auto&type=txt&";
    let expected = md5_hex(format!("{}{}S", query, md5_hex(&[0u8])).as_bytes());
    assert_eq!(get(&form.fields, "sign"), Some(expected.as_str()));
}
