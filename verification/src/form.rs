//! Form construction, one builder per endpoint family.
//!
//! Each builder assembles the full field set for its endpoint from the
//! client configuration and the request data, computes the signature over
//! those fields, and attaches it as `sign`.  A builder is pure: the salt
//! is a parameter, and the result is a plain field list (plus the raw file
//! bytes for the multipart endpoints) for the transport layer to send.
//! The `_now` variants draw the salt from the clock first.

use vstd::prelude::*;
use vstd::string::StringExecFns;
use vstd::utf8::is_ascii_chars;

use crate::canon::{
    canonical_query, distinct_keys, has_key, key_le, lemma_name_le_first, lemma_name_le_second,
    lemma_sorted_distinct_unique, lemma_transpose_multiset, pairs_view, sort_pairs, sorted_by_key,
    spec_canonical_query,
};
use crate::config::Config;
use crate::constant::{IMAGE_CUID, IMAGE_MAC, IMAGE_VERSION};
use crate::decimal::{dec_digits, u64_to_dec};
use crate::domain::Domain;
use crate::sign::{
    md5_hex, md5_hex_of, sign_document, sign_domain, sign_image, sign_text, spec_sign_document,
    spec_sign_domain, spec_sign_image, spec_sign_text,
};

verus! {

/// Relies on chrono::Local::now for the current Unix timestamp in seconds.
/// Nothing is assumed of the value: it is the clock's.
#[verifier::external_body]
fn now_unix_seconds() -> i64 {
    chrono::Local::now().timestamp()
}

/// The salt for a fresh request: the current Unix timestamp in seconds,
/// clamped to zero should the clock stand before the epoch.
pub fn current_salt() -> u64 {
    let t = now_unix_seconds();
    if t < 0 {
        0
    } else {
        t as u64
    }
}

/// The view of an optional string.
pub open spec fn opt_view(o: Option<String>) -> Option<Seq<char>> {
    match o {
        Option::None => Option::None,
        Option::Some(s) => Option::Some(s@),
    }
}

/// The fields of a text-translation form: the base fields and the
/// signature, then `tts=1` and `dict=1` together whenever the dictionary
/// or the TTS flag is set (one test gates both fields), then `action=1`
/// when the terminology flag is set.
pub open spec fn spec_text_form(c: Config, q: Seq<char>, salt: u64) -> Seq<
    (Seq<char>, Seq<char>),
> {
    let base = seq![
        ("q"@, q),
        ("from"@, c.from.spec_code()),
        ("to"@, c.to.spec_code()),
        ("appid"@, c.app_id@),
        ("salt"@, dec_digits(salt as nat)),
        ("sign"@, spec_sign_text(c.app_id@, q, salt, c.secret_key@)),
    ];
    let with_features = if c.open_dict || c.open_tts {
        base + seq![("tts"@, "1"@), ("dict"@, "1"@)]
    } else {
        base
    };
    if c.open_action {
        with_features + seq![("action"@, "1"@)]
    } else {
        with_features
    }
}

/// Build the text-translation form for query `q` with the given salt.
pub fn build_text_form(config: &Config, q: &str, salt: u64) -> (r: Vec<(String, String)>)
    ensures
        pairs_view(r@) == spec_text_form(*config, q@, salt),
{
    let mut r: Vec<(String, String)> = Vec::new();
    r.push(("q".to_owned(), q.to_owned()));
    r.push(("from".to_owned(), config.from.code().to_owned()));
    r.push(("to".to_owned(), config.to.code().to_owned()));
    r.push(("appid".to_owned(), config.app_id.clone()));
    r.push(("salt".to_owned(), u64_to_dec(salt)));
    r.push((
        "sign".to_owned(),
        sign_text(config.app_id.as_str(), q, salt, config.secret_key.as_str()),
    ));
    if config.open_dict || config.open_tts {
        r.push(("tts".to_owned(), "1".to_owned()));
        r.push(("dict".to_owned(), "1".to_owned()));
    }
    if config.open_action {
        r.push(("action".to_owned(), "1".to_owned()));
    }
    proof {
        assert(pairs_view(r@) =~= spec_text_form(*config, q@, salt));
    }
    r
}

/// Build the text-translation form with a fresh salt from the clock.
pub fn build_text_form_now(config: &Config, q: &str) -> (r: Vec<(String, String)>)
    ensures
        exists|salt: u64| pairs_view(r@) == #[trigger] spec_text_form(*config, q@, salt),
{
    let salt = current_salt();
    let r = build_text_form(config, q, salt);
    proof {
        assert(pairs_view(r@) == spec_text_form(*config, q@, salt));
    }
    r
}

/// Either feature flag alone adds both `tts=1` and `dict=1` to the text
/// form, and they appear only then: the two fields are gated by one test.
pub proof fn lemma_text_form_tts_dict(c: Config, q: Seq<char>, salt: u64)
    ensures
        (c.open_dict || c.open_tts) <==> has_key(spec_text_form(c, q, salt), "tts"@),
        (c.open_dict || c.open_tts) <==> has_key(spec_text_form(c, q, salt), "dict"@),
        (c.open_dict || c.open_tts) ==> spec_text_form(c, q, salt).contains(("tts"@, "1"@))
            && spec_text_form(c, q, salt).contains(("dict"@, "1"@)),
{
    let form = spec_text_form(c, q, salt);
    if c.open_dict || c.open_tts {
        assert(form[6] == ("tts"@, "1"@));
        assert(form[7] == ("dict"@, "1"@));
        assert(form[6].0 == "tts"@ && form[7].0 == "dict"@);
        assert(form.contains(("tts"@, "1"@)));
        assert(form.contains(("dict"@, "1"@)));
        assert(has_key(form, "tts"@));
        assert(has_key(form, "dict"@));
    } else {
        reveal_strlit("q");
        reveal_strlit("from");
        reveal_strlit("to");
        reveal_strlit("appid");
        reveal_strlit("salt");
        reveal_strlit("sign");
        reveal_strlit("action");
        reveal_strlit("tts");
        reveal_strlit("dict");
        assert forall|i: int| 0 <= i < form.len() implies form[i].0 != "tts"@ && form[i].0
            != "dict"@ by {
            reveal_strlit("q");
            reveal_strlit("from");
            reveal_strlit("to");
            reveal_strlit("appid");
            reveal_strlit("salt");
            reveal_strlit("sign");
            reveal_strlit("action");
            reveal_strlit("tts");
            reveal_strlit("dict");
            assert("tts"@.len() == 3 && "dict"@.len() == 4);
            assert("dict"@[0] == 'd');
            let k = form[i].0;
            if i == 0 {
                assert(k == "q"@ && k.len() == 1);
            } else if i == 1 {
                assert(k == "from"@ && k.len() == 4 && k[0] == 'f');
            } else if i == 2 {
                assert(k == "to"@ && k.len() == 2);
            } else if i == 3 {
                assert(k == "appid"@ && k.len() == 5);
            } else if i == 4 {
                assert(k == "salt"@ && k.len() == 4 && k[0] == 's');
            } else if i == 5 {
                assert(k == "sign"@ && k.len() == 4 && k[0] == 's');
            } else {
                assert(k == "action"@ && k.len() == 6);
            }
        }
        assert(!has_key(form, "tts"@));
        assert(!has_key(form, "dict"@));
    }
}

/// `action=1` is in the text form exactly when the terminology flag is
/// set; with the flag clear, no field of the form is named `action`.
pub proof fn lemma_text_form_action(c: Config, q: Seq<char>, salt: u64)
    ensures
        c.open_action <==> has_key(spec_text_form(c, q, salt), "action"@),
        c.open_action ==> spec_text_form(c, q, salt).contains(("action"@, "1"@)),
{
    let form = spec_text_form(c, q, salt);
    if c.open_action {
        assert(form[form.len() - 1] == ("action"@, "1"@));
        assert(form[form.len() - 1].0 == "action"@);
        assert(form.contains(("action"@, "1"@)));
        assert(has_key(form, "action"@));
    } else {
        reveal_strlit("q");
        reveal_strlit("from");
        reveal_strlit("to");
        reveal_strlit("appid");
        reveal_strlit("salt");
        reveal_strlit("sign");
        reveal_strlit("tts");
        reveal_strlit("dict");
        reveal_strlit("action");
        assert forall|i: int| 0 <= i < form.len() implies form[i].0 != "action"@ by {
            reveal_strlit("q");
            reveal_strlit("from");
            reveal_strlit("to");
            reveal_strlit("appid");
            reveal_strlit("salt");
            reveal_strlit("sign");
            reveal_strlit("tts");
            reveal_strlit("dict");
            reveal_strlit("action");
            assert("action"@.len() == 6);
            let k = form[i].0;
            if i == 0 {
                assert(k == "q"@ && k.len() == 1);
            } else if i == 1 {
                assert(k == "from"@ && k.len() == 4);
            } else if i == 2 {
                assert(k == "to"@ && k.len() == 2);
            } else if i == 3 {
                assert(k == "appid"@ && k.len() == 5);
            } else if i == 4 {
                assert(k == "salt"@ && k.len() == 4);
            } else if i == 5 {
                assert(k == "sign"@ && k.len() == 4);
            } else if i == 6 {
                assert(k == "tts"@ && k.len() == 3);
            } else {
                assert(k == "dict"@ && k.len() == 4);
            }
        }
        assert(!has_key(form, "action"@));
    }
}

/// The fields of a vertical-domain form: the text base fields, the domain
/// code, and the domain signature.
pub open spec fn spec_domain_form(c: Config, q: Seq<char>, salt: u64, d: Domain) -> Seq<
    (Seq<char>, Seq<char>),
> {
    seq![
        ("q"@, q),
        ("from"@, c.from.spec_code()),
        ("to"@, c.to.spec_code()),
        ("appid"@, c.app_id@),
        ("salt"@, dec_digits(salt as nat)),
        ("domain"@, d.spec_code()),
        ("sign"@, spec_sign_domain(c.app_id@, q, salt, d, c.secret_key@)),
    ]
}

/// Build the vertical-domain form for query `q` with the given salt.
pub fn build_domain_form(config: &Config, q: &str, salt: u64, domain: Domain) -> (r: Vec<
    (String, String),
>)
    ensures
        pairs_view(r@) == spec_domain_form(*config, q@, salt, domain),
{
    let mut r: Vec<(String, String)> = Vec::new();
    r.push(("q".to_owned(), q.to_owned()));
    r.push(("from".to_owned(), config.from.code().to_owned()));
    r.push(("to".to_owned(), config.to.code().to_owned()));
    r.push(("appid".to_owned(), config.app_id.clone()));
    r.push(("salt".to_owned(), u64_to_dec(salt)));
    r.push(("domain".to_owned(), domain.code().to_owned()));
    r.push((
        "sign".to_owned(),
        sign_domain(config.app_id.as_str(), q, salt, domain, config.secret_key.as_str()),
    ));
    proof {
        assert(pairs_view(r@) =~= spec_domain_form(*config, q@, salt, domain));
    }
    r
}

/// Build the vertical-domain form with a fresh salt from the clock.
pub fn build_domain_form_now(config: &Config, q: &str, domain: Domain) -> (r: Vec<
    (String, String),
>)
    ensures
        exists|salt: u64|
            pairs_view(r@) == #[trigger] spec_domain_form(*config, q@, salt, domain),
{
    let salt = current_salt();
    let r = build_domain_form(config, q, salt, domain);
    proof {
        assert(pairs_view(r@) == spec_domain_form(*config, q@, salt, domain));
    }
    r
}

/// A multipart image-translation request: the image part and the plain
/// text fields, `sign` included.
pub struct ImageForm {
    /// File name of the image part; the endpoint requires one.
    pub file_name: String,
    /// The raw image bytes, sent as the part's body.
    pub image: Vec<u8>,
    /// The plain text fields.
    pub fields: Vec<(String, String)>,
}

/// The text fields of an image form.
pub open spec fn spec_image_fields(
    c: Config,
    image: Seq<u8>,
    salt: u64,
    cuid: Seq<char>,
    mac: Seq<char>,
    version: Seq<char>,
    paste: Option<Seq<char>>,
) -> Seq<(Seq<char>, Seq<char>)> {
    let base = seq![
        ("from"@, c.from.spec_code()),
        ("to"@, c.to.spec_code()),
        ("appid"@, c.app_id@),
        ("salt"@, dec_digits(salt as nat)),
        ("cuid"@, cuid),
        ("mac"@, mac),
        ("version"@, version),
        ("sign"@, spec_sign_image(c.app_id@, image, salt, cuid, mac, c.secret_key@)),
    ];
    match paste {
        Option::None => base,
        Option::Some(p) => base + seq![("paste"@, p)],
    }
}

/// Build the image-translation form over the raw image bytes.  `cuid`,
/// `mac` and `version` are protocol constants unless the caller overrides
/// them; `paste` selects the paste mode, absent to leave it off.
pub fn build_image_form(
    config: &Config,
    name: &str,
    data: Vec<u8>,
    salt: u64,
    cuid: &str,
    mac: &str,
    version: &str,
    paste: Option<String>,
) -> (r: ImageForm)
    ensures
        r.file_name@ == name@,
        r.image@ == data@,
        pairs_view(r.fields@) == spec_image_fields(
            *config,
            data@,
            salt,
            cuid@,
            mac@,
            version@,
            opt_view(paste),
        ),
{
    let sign = sign_image(
        config.app_id.as_str(),
        data.as_slice(),
        salt,
        cuid,
        mac,
        config.secret_key.as_str(),
    );
    let mut fields: Vec<(String, String)> = Vec::new();
    fields.push(("from".to_owned(), config.from.code().to_owned()));
    fields.push(("to".to_owned(), config.to.code().to_owned()));
    fields.push(("appid".to_owned(), config.app_id.clone()));
    fields.push(("salt".to_owned(), u64_to_dec(salt)));
    fields.push(("cuid".to_owned(), cuid.to_owned()));
    fields.push(("mac".to_owned(), mac.to_owned()));
    fields.push(("version".to_owned(), version.to_owned()));
    fields.push(("sign".to_owned(), sign));
    match paste {
        Option::Some(p) => {
            fields.push(("paste".to_owned(), p));
        },
        Option::None => {},
    }
    let r = ImageForm { file_name: name.to_owned(), image: data, fields };
    proof {
        assert(pairs_view(r.fields@) =~= spec_image_fields(
            *config,
            data@,
            salt,
            cuid@,
            mac@,
            version@,
            opt_view(paste),
        ));
    }
    r
}

/// Build the image-translation form with a fresh salt from the clock and
/// the fixed protocol values for `cuid`, `mac` and `version`.
pub fn build_image_form_now(config: &Config, name: &str, data: Vec<u8>, paste: Option<String>)
    -> (r: ImageForm)
    ensures
        r.file_name@ == name@,
        r.image@ == data@,
        exists|salt: u64|
            pairs_view(r.fields@) == #[trigger] spec_image_fields(
                *config,
                data@,
                salt,
                IMAGE_CUID@,
                IMAGE_MAC@,
                IMAGE_VERSION@,
                opt_view(paste),
            ),
{
    let salt = current_salt();
    let ghost paste_v = opt_view(paste);
    let r = build_image_form(config, name, data, salt, IMAGE_CUID, IMAGE_MAC, IMAGE_VERSION, paste);
    proof {
        assert(pairs_view(r.fields@) == spec_image_fields(
            *config,
            r.image@,
            salt,
            IMAGE_CUID@,
            IMAGE_MAC@,
            IMAGE_VERSION@,
            paste_v,
        ));
    }
    r
}

/// A multipart document request: the file part and the plain text fields,
/// already in canonical order, `sign` last.
pub struct DocForm {
    /// File name of the file part.
    pub file_name: String,
    /// The document bytes, sent as the part's body.
    pub file: Vec<u8>,
    /// The plain text fields, key-sorted, with `sign` appended.
    pub fields: Vec<(String, String)>,
}

/// The signed fields of the character-count form, in canonical key order.
pub open spec fn spec_doc_count_base(c: Config, ext: Seq<char>, salt: u64) -> Seq<
    (Seq<char>, Seq<char>),
> {
    seq![
        ("appid"@, c.app_id@),
        ("from"@, c.from.spec_code()),
        ("timestamp"@, dec_digits(salt as nat)),
        ("to"@, c.to.spec_code()),
        ("type"@, ext),
    ]
}

/// All text fields of the character-count form: the canonical base and the
/// signature over its query string and the file's digest.
pub open spec fn spec_doc_count_fields(c: Config, data: Seq<u8>, ext: Seq<char>, salt: u64) -> Seq<
    (Seq<char>, Seq<char>),
> {
    spec_doc_count_base(c, ext, salt) + seq![
        (
            "sign"@,
            spec_sign_document(
                spec_canonical_query(spec_doc_count_base(c, ext, salt)),
                md5_hex_of(data),
                c.secret_key@,
            ),
        ),
    ]
}

/// The canonical base of the character-count form is indeed canonical:
/// key-sorted, no key repeated.
pub proof fn lemma_doc_count_base_canonical(c: Config, ext: Seq<char>, salt: u64)
    ensures
        sorted_by_key(spec_doc_count_base(c, ext, salt)),
        distinct_keys(spec_doc_count_base(c, ext, salt)),
{
    reveal_strlit("appid");
    reveal_strlit("from");
    reveal_strlit("timestamp");
    reveal_strlit("to");
    reveal_strlit("type");
    assert(is_ascii_chars("appid"@));
    assert(is_ascii_chars("from"@));
    assert(is_ascii_chars("timestamp"@));
    assert(is_ascii_chars("to"@));
    assert(is_ascii_chars("type"@));
    lemma_name_le_first("appid"@, "from"@);
    lemma_name_le_first("appid"@, "timestamp"@);
    lemma_name_le_first("appid"@, "to"@);
    lemma_name_le_first("appid"@, "type"@);
    lemma_name_le_first("from"@, "timestamp"@);
    lemma_name_le_first("from"@, "to"@);
    lemma_name_le_first("from"@, "type"@);
    lemma_name_le_second("timestamp"@, "to"@);
    lemma_name_le_second("timestamp"@, "type"@);
    lemma_name_le_second("to"@, "type"@);
    let base = spec_doc_count_base(c, ext, salt);
    assert forall|i: int, j: int| 0 <= i < j < base.len() implies #[trigger] key_le(
        base[i],
        base[j],
    ) by {}
    assert forall|i: int, j: int|
        0 <= i < j < base.len() implies #[trigger] base[i].0 != #[trigger] base[j].0 by {}
}

/// Build the character-count form for a document with the given file name
/// and extension.  The fields end up key-sorted, and the signature covers
/// their canonical query string and the document's digest.
pub fn build_doc_count_form(config: &Config, data: Vec<u8>, name: &str, ext: &str, salt: u64)
    -> (r: DocForm)
    ensures
        r.file_name@ == name@,
        r.file@ == data@,
        pairs_view(r.fields@) == spec_doc_count_fields(*config, data@, ext@, salt),
{
    let mut kv: Vec<(String, String)> = Vec::new();
    kv.push(("appid".to_owned(), config.app_id.clone()));
    kv.push(("from".to_owned(), config.from.code().to_owned()));
    kv.push(("to".to_owned(), config.to.code().to_owned()));
    kv.push(("timestamp".to_owned(), u64_to_dec(salt)));
    kv.push(("type".to_owned(), ext.to_owned()));
    let ghost ins = pairs_view(kv@);
    let sorted = sort_pairs(kv);
    proof {
        lemma_doc_count_base_canonical(*config, ext@, salt);
        let base = spec_doc_count_base(*config, ext@, salt);
        assert(base =~= ins.update(2, ins[3]).update(3, ins[2]));
        lemma_transpose_multiset(ins, 2, 3);
        assert(base.to_multiset() == ins.to_multiset());
        lemma_sorted_distinct_unique(pairs_view(sorted@), base);
        assert(pairs_view(sorted@) == base);
    }
    let query = canonical_query(&sorted);
    let file_hex = md5_hex(data.as_slice());
    let sign = sign_document(query.as_str(), file_hex.as_str(), config.secret_key.as_str());
    let mut fields = sorted;
    fields.push(("sign".to_owned(), sign));
    let r = DocForm { file_name: name.to_owned(), file: data, fields };
    proof {
        assert(pairs_view(r.fields@) =~= spec_doc_count_fields(*config, data@, ext@, salt));
    }
    r
}

/// Build the character-count form with a fresh salt from the clock.
pub fn build_doc_count_form_now(config: &Config, data: Vec<u8>, name: &str, ext: &str) -> (r:
    DocForm)
    ensures
        r.file_name@ == name@,
        r.file@ == data@,
        exists|salt: u64|
            pairs_view(r.fields@) == #[trigger] spec_doc_count_fields(
                *config,
                r.file@,
                ext@,
                salt,
            ),
{
    let salt = current_salt();
    let r = build_doc_count_form(config, data, name, ext, salt);
    proof {
        assert(pairs_view(r.fields@) == spec_doc_count_fields(*config, r.file@, ext@, salt));
    }
    r
}

/// The signed fields of the full document-translation form, in canonical
/// key order: the count form's fields plus `outPutType`.
pub open spec fn spec_doc_base(c: Config, ext: Seq<char>, out_type: Seq<char>, salt: u64) -> Seq<
    (Seq<char>, Seq<char>),
> {
    seq![
        ("appid"@, c.app_id@),
        ("from"@, c.from.spec_code()),
        ("outPutType"@, out_type),
        ("timestamp"@, dec_digits(salt as nat)),
        ("to"@, c.to.spec_code()),
        ("type"@, ext),
    ]
}

/// All text fields of the document-translation form: the canonical base
/// and the signature over its query string and the file's digest.
pub open spec fn spec_doc_fields(
    c: Config,
    data: Seq<u8>,
    ext: Seq<char>,
    out_type: Seq<char>,
    salt: u64,
) -> Seq<(Seq<char>, Seq<char>)> {
    spec_doc_base(c, ext, out_type, salt) + seq![
        (
            "sign"@,
            spec_sign_document(
                spec_canonical_query(spec_doc_base(c, ext, out_type, salt)),
                md5_hex_of(data),
                c.secret_key@,
            ),
        ),
    ]
}

/// The canonical base of the document-translation form is canonical:
/// key-sorted, no key repeated.
pub proof fn lemma_doc_base_canonical(c: Config, ext: Seq<char>, out_type: Seq<char>, salt: u64)
    ensures
        sorted_by_key(spec_doc_base(c, ext, out_type, salt)),
        distinct_keys(spec_doc_base(c, ext, out_type, salt)),
{
    reveal_strlit("appid");
    reveal_strlit("from");
    reveal_strlit("outPutType");
    reveal_strlit("timestamp");
    reveal_strlit("to");
    reveal_strlit("type");
    assert(is_ascii_chars("appid"@));
    assert(is_ascii_chars("from"@));
    assert(is_ascii_chars("outPutType"@));
    assert(is_ascii_chars("timestamp"@));
    assert(is_ascii_chars("to"@));
    assert(is_ascii_chars("type"@));
    lemma_name_le_first("appid"@, "from"@);
    lemma_name_le_first("appid"@, "outPutType"@);
    lemma_name_le_first("appid"@, "timestamp"@);
    lemma_name_le_first("appid"@, "to"@);
    lemma_name_le_first("appid"@, "type"@);
    lemma_name_le_first("from"@, "outPutType"@);
    lemma_name_le_first("from"@, "timestamp"@);
    lemma_name_le_first("from"@, "to"@);
    lemma_name_le_first("from"@, "type"@);
    lemma_name_le_first("outPutType"@, "timestamp"@);
    lemma_name_le_first("outPutType"@, "to"@);
    lemma_name_le_first("outPutType"@, "type"@);
    lemma_name_le_second("timestamp"@, "to"@);
    lemma_name_le_second("timestamp"@, "type"@);
    lemma_name_le_second("to"@, "type"@);
    let base = spec_doc_base(c, ext, out_type, salt);
    assert forall|i: int, j: int| 0 <= i < j < base.len() implies #[trigger] key_le(
        base[i],
        base[j],
    ) by {}
    assert forall|i: int, j: int|
        0 <= i < j < base.len() implies #[trigger] base[i].0 != #[trigger] base[j].0 by {}
}

/// Build the full document-translation form; `out_type` names the wanted
/// output format.
pub fn build_doc_form(
    config: &Config,
    data: Vec<u8>,
    name: &str,
    ext: &str,
    out_type: &str,
    salt: u64,
) -> (r: DocForm)
    ensures
        r.file_name@ == name@,
        r.file@ == data@,
        pairs_view(r.fields@) == spec_doc_fields(*config, data@, ext@, out_type@, salt),
{
    let mut kv: Vec<(String, String)> = Vec::new();
    kv.push(("appid".to_owned(), config.app_id.clone()));
    kv.push(("from".to_owned(), config.from.code().to_owned()));
    kv.push(("to".to_owned(), config.to.code().to_owned()));
    kv.push(("timestamp".to_owned(), u64_to_dec(salt)));
    kv.push(("type".to_owned(), ext.to_owned()));
    kv.push(("outPutType".to_owned(), out_type.to_owned()));
    let ghost ins = pairs_view(kv@);
    let sorted = sort_pairs(kv);
    proof {
        lemma_doc_base_canonical(*config, ext@, out_type@, salt);
        let base = spec_doc_base(*config, ext@, out_type@, salt);
        let mid = ins.update(2, ins[5]).update(5, ins[2]);
        lemma_transpose_multiset(ins, 2, 5);
        assert(mid.to_multiset() == ins.to_multiset());
        lemma_transpose_multiset(mid, 4, 5);
        assert(base =~= mid.update(4, mid[5]).update(5, mid[4]));
        assert(base.to_multiset() == ins.to_multiset());
        lemma_sorted_distinct_unique(pairs_view(sorted@), base);
        assert(pairs_view(sorted@) == base);
    }
    let query = canonical_query(&sorted);
    let file_hex = md5_hex(data.as_slice());
    let sign = sign_document(query.as_str(), file_hex.as_str(), config.secret_key.as_str());
    let mut fields = sorted;
    fields.push(("sign".to_owned(), sign));
    let r = DocForm { file_name: name.to_owned(), file: data, fields };
    proof {
        assert(pairs_view(r.fields@) =~= spec_doc_fields(*config, data@, ext@, out_type@, salt));
    }
    r
}

/// Build the full document-translation form with a fresh salt from the
/// clock.
pub fn build_doc_form_now(config: &Config, data: Vec<u8>, name: &str, ext: &str, out_type: &str)
    -> (r: DocForm)
    ensures
        r.file_name@ == name@,
        r.file@ == data@,
        exists|salt: u64|
            pairs_view(r.fields@) == #[trigger] spec_doc_fields(
                *config,
                r.file@,
                ext@,
                out_type@,
                salt,
            ),
{
    let salt = current_salt();
    let r = build_doc_form(config, data, name, ext, out_type, salt);
    proof {
        assert(pairs_view(r.fields@) == spec_doc_fields(*config, r.file@, ext@, out_type@, salt));
    }
    r
}

} // verus!
