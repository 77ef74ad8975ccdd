//! Tests of the language and domain codes, decimal rendering, and the
//! configuration type.

use baidu_trans::config::Config;
use baidu_trans::decimal::u64_to_dec;
use baidu_trans::domain::Domain;
use baidu_trans::lang::Lang;
use baidu_trans::model::ErrorCode;

#[test]
fn lang_codes() {
    let table: Vec<(Lang, &str)> = vec![
        (Lang::Auto, "auto"),
        (Lang::Zh, "zh"),
        (Lang::En, "en"),
        (Lang::Yue, "yue"),
        (Lang::Wyw, "wyw"),
        (Lang::Jp, "jp"),
        (Lang::Kor, "kor"),
        (Lang::Fra, "fra"),
        (Lang::Spa, "spa"),
        (Lang::Th, "th"),
        (Lang::Ara, "ara"),
        (Lang::Ru, "ru"),
        (Lang::Pt, "pt"),
        (Lang::De, "de"),
        (Lang::It, "it"),
        (Lang::El, "el"),
        (Lang::Nl, "nl"),
        (Lang::Pl, "pl"),
        (Lang::Bul, "bul"),
        (Lang::Est, "est"),
        (Lang::Dan, "dan"),
        (Lang::Fin, "fin"),
        (Lang::Cs, "cs"),
        (Lang::Rom, "rom"),
        (Lang::Slo, "slo"),
        (Lang::Swe, "swe"),
        (Lang::Hu, "hu"),
        (Lang::Cht, "cht"),
        (Lang::Vie, "vie"),
    ];
    assert_eq!(table.len(), 29);
    for (lang, code) in table {
        assert_eq!(lang.code(), code);
    }
}

#[test]
fn lang_default_is_auto() {
    assert_eq!(Lang::default(), Lang::Auto);
}

#[test]
fn domain_codes_round_trip() {
    let all = vec![
        Domain::Electronics,
        Domain::Finance,
        Domain::Mechanics,
        Domain::Medicine,
        Domain::Novel,
    ];
    for d in all {
        assert_eq!(Domain::from_code(d.code()), Some(d));
    }
}

#[test]
fn domain_from_code_rejects_unknown() {
    assert_eq!(Domain::from_code(""), None);
    assert_eq!(Domain::from_code("finances"), None);
    assert_eq!(Domain::from_code("Electronics"), None);
}

#[test]
fn decimal_rendering() {
    assert_eq!(u64_to_dec(0), "0");
    assert_eq!(u64_to_dec(7), "7");
    assert_eq!(u64_to_dec(10), "10");
    assert_eq!(u64_to_dec(1000), "1000");
    assert_eq!(u64_to_dec(1234567890), "1234567890");
    assert_eq!(u64_to_dec(u64::MAX), "18446744073709551615");
}

#[test]
fn config_construction_and_setters() {
    let mut c = Config::new("id".to_string(), "key".to_string());
    assert_eq!(c.app_id, "id");
    assert_eq!(c.secret_key, "key");
    assert_eq!(c.from, Lang::Auto);
    assert_eq!(c.to, Lang::Auto);
    assert!(!c.open_dict && !c.open_tts && !c.open_action);
    c.set_from(Lang::Jp);
    c.set_to(Lang::Kor);
    assert_eq!(c.from, Lang::Jp);
    assert_eq!(c.to, Lang::Kor);
}

#[test]
fn error_code_variants() {
    let ok = ErrorCode::Int(52000);
    let bad = ErrorCode::Str("54001".to_string());
    assert_eq!(ok, ErrorCode::Int(52000));
    assert_ne!(ok, ErrorCode::Int(52001));
    assert_eq!(bad, ErrorCode::Str("54001".to_string()));
    assert_ne!(ok, bad);
}
