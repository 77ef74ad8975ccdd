//! Request signing.
//!
//! Every endpoint authenticates a request the same way: the request fields
//! are concatenated in a fixed order, the concatenation's UTF-8 bytes are
//! hashed with MD5, and the lowercase hex digest travels as the `sign`
//! field.  The concatenation order is what differs between endpoints, and
//! is pinned here, one function per endpoint family.

use vstd::prelude::*;
use vstd::string::StringExecFns;
use vstd::utf8::encode_utf8;

use md5::Digest;

use crate::decimal::{dec_digits, u64_to_dec};
use crate::domain::Domain;

verus! {

/// The lowercase hex rendering of the MD5 digest of `bytes`.
///
/// MD5 itself is left uninterpreted: the library depends only on the digest
/// being a function of the input bytes, never on its value.
pub uninterp spec fn md5_hex_of(bytes: Seq<u8>) -> Seq<char>;

/// Relies on md5::Md5 (through the Digest trait) for the 16-byte MD5 digest
/// of the input, and on its LowerHex rendering: two lowercase hex digits per
/// digest byte, 32 characters in all.
#[verifier::external_body]
pub(crate) fn md5_hex(bytes: &[u8]) -> (r: String)
    ensures
        r@ == md5_hex_of(bytes@),
        r@.len() == 32,
{
    format!("{:x}", md5::Md5::digest(bytes))
}

/// Signature input of the text endpoint:
/// `app_id ∥ query ∥ salt ∥ secret_key`, hashed over its UTF-8 bytes.
pub open spec fn spec_sign_text(
    app_id: Seq<char>,
    query: Seq<char>,
    salt: u64,
    secret_key: Seq<char>,
) -> Seq<char> {
    md5_hex_of(encode_utf8(app_id + query + dec_digits(salt as nat) + secret_key))
}

/// Sign a text-translation request.
pub fn sign_text(app_id: &str, query: &str, salt: u64, secret_key: &str) -> (r: String)
    ensures
        r@ == spec_sign_text(app_id@, query@, salt, secret_key@),
{
    let mut input = app_id.to_owned();
    input.append(query);
    let salt_s = u64_to_dec(salt);
    input.append(salt_s.as_str());
    input.append(secret_key);
    md5_hex(input.as_str().as_bytes())
}

/// Signature input of the vertical-domain endpoint:
/// `app_id ∥ query ∥ salt ∥ domain ∥ secret_key`.
pub open spec fn spec_sign_domain(
    app_id: Seq<char>,
    query: Seq<char>,
    salt: u64,
    domain: Domain,
    secret_key: Seq<char>,
) -> Seq<char> {
    md5_hex_of(
        encode_utf8(app_id + query + dec_digits(salt as nat) + domain.spec_code() + secret_key),
    )
}

/// Sign a vertical-domain translation request.
pub fn sign_domain(
    app_id: &str,
    query: &str,
    salt: u64,
    domain: Domain,
    secret_key: &str,
) -> (r: String)
    ensures
        r@ == spec_sign_domain(app_id@, query@, salt, domain, secret_key@),
{
    let mut input = app_id.to_owned();
    input.append(query);
    let salt_s = u64_to_dec(salt);
    input.append(salt_s.as_str());
    input.append(domain.code());
    input.append(secret_key);
    md5_hex(input.as_str().as_bytes())
}

/// Signature input of the image endpoint:
/// `app_id ∥ md5(image) ∥ salt ∥ cuid ∥ mac ∥ secret_key`, where the inner
/// digest is itself the lowercase hex MD5 of the raw image bytes.
pub open spec fn spec_sign_image(
    app_id: Seq<char>,
    image: Seq<u8>,
    salt: u64,
    cuid: Seq<char>,
    mac: Seq<char>,
    secret_key: Seq<char>,
) -> Seq<char> {
    md5_hex_of(
        encode_utf8(
            app_id + md5_hex_of(image) + dec_digits(salt as nat) + cuid + mac + secret_key,
        ),
    )
}

/// Sign an image-translation request over the raw image bytes.
pub fn sign_image(
    app_id: &str,
    image: &[u8],
    salt: u64,
    cuid: &str,
    mac: &str,
    secret_key: &str,
) -> (r: String)
    ensures
        r@ == spec_sign_image(app_id@, image@, salt, cuid@, mac@, secret_key@),
{
    let inner = md5_hex(image);
    let mut input = app_id.to_owned();
    input.append(inner.as_str());
    let salt_s = u64_to_dec(salt);
    input.append(salt_s.as_str());
    input.append(cuid);
    input.append(mac);
    input.append(secret_key);
    md5_hex(input.as_str().as_bytes())
}

/// Signature input of the document endpoints:
/// `sorted_query ∥ file_md5_hex ∥ secret_key`, where `sorted_query` is the
/// canonical key-sorted query string and `file_md5_hex` the lowercase hex
/// MD5 of the document bytes.
pub open spec fn spec_sign_document(
    sorted_query: Seq<char>,
    file_md5_hex: Seq<char>,
    secret_key: Seq<char>,
) -> Seq<char> {
    md5_hex_of(encode_utf8(sorted_query + file_md5_hex + secret_key))
}

/// Sign a document request from its canonical query string and the hex MD5
/// of the file's bytes.
pub fn sign_document(sorted_query: &str, file_md5_hex: &str, secret_key: &str) -> (r: String)
    ensures
        r@ == spec_sign_document(sorted_query@, file_md5_hex@, secret_key@),
{
    let mut input = sorted_query.to_owned();
    input.append(file_md5_hex);
    input.append(secret_key);
    md5_hex(input.as_str().as_bytes())
}

/// Signing is deterministic: two digests computed for the same text request
/// are the same digest, however they were produced.
pub proof fn lemma_sign_text_deterministic(
    app_id: Seq<char>,
    query: Seq<char>,
    salt: u64,
    secret_key: Seq<char>,
    r1: Seq<char>,
    r2: Seq<char>,
)
    requires
        r1 == spec_sign_text(app_id, query, salt, secret_key),
        r2 == spec_sign_text(app_id, query, salt, secret_key),
    ensures
        r1 == r2,
{
}

} // verus!
