//! The calls that leave this library: base64, HMAC-SHA1, the HTTP date
//! and URL assembly. Each contract below is believed, not proved.

use base64::Engine;
use hmac::Mac;
use vstd::prelude::*;

verus! {

/// What the standard base64 alphabet, with padding, makes of `bytes`.
pub uninterp spec fn base64_encoding(bytes: Seq<u8>) -> Seq<char>;

/// The bytes that `text` stands for in standard padded base64, or `None`
/// where `text` is no such encoding.
pub uninterp spec fn base64_decoding(text: Seq<char>) -> Option<Seq<u8>>;

/// The HMAC-SHA1 authentication code of `message` under `key`.
pub uninterp spec fn hmac_sha1(key: Seq<u8>, message: Seq<u8>) -> Seq<u8>;

/// The IMF-fixdate text of the instant `secs` seconds after the Unix epoch.
pub uninterp spec fn http_date_text(secs: u64) -> Seq<char>;

/// What URL parsing makes of `base` once its path is replaced by `path`:
/// the whole URL and its percent-encoded path, or the parser's complaint
/// about `base`.
pub uninterp spec fn url_with_path(base: Seq<char>, path: Seq<char>) -> Result<
    (Seq<char>, Seq<char>),
    Seq<char>,
>;

/// The first instant that the HTTP date format cannot express: the start
/// of the year 10000, in seconds after the Unix epoch.
pub const DATE_LIMIT: u64 = 253402300800;

/// The most characters that a base URL and a path may have together.
pub const ADDRESS_LIMIT: usize = 16777216;

/// `Engine::encode` of base64's `STANDARD` engine. The result is the
/// encoding of the input; the call panics only where the encoded length
/// does not fit a `usize`, which `requires` rules out.
#[verifier::external_body]
pub(crate) fn base64_encode(bytes: &[u8]) -> (text: String)
    requires
        (bytes@.len() / 3 + 1) * 4 <= usize::MAX,
    ensures
        text@ == base64_encoding(bytes@),
{
    base64::engine::general_purpose::STANDARD.encode(bytes)
}

/// `Engine::decode` of base64's `STANDARD` engine, on the UTF-8 bytes of
/// `text`. A decode error of any sort becomes `None`.
#[verifier::external_body]
pub(crate) fn base64_decode(text: &str) -> (bytes: Option<Vec<u8>>)
    ensures
        bytes is Some <==> base64_decoding(text@) is Some,
        bytes matches Some(b) ==> base64_decoding(text@) == Some(b@),
{
    base64::engine::general_purpose::STANDARD.decode(text.as_bytes()).ok()
}

/// `Hmac::<Sha1>::new_from_slice`, `update` and `finalize` of the hmac
/// crate. The key setup accepts a key of any length, so a code always
/// comes back; it is the 20 bytes of a SHA-1 output.
#[verifier::external_body]
pub(crate) fn hmac_sha1_code(key: &[u8], message: &[u8]) -> (code: Option<Vec<u8>>)
    ensures
        code is Some,
        code matches Some(c) ==> c@ == hmac_sha1(key@, message@),
        code matches Some(c) ==> c@.len() == 20,
{
    let mut mac = hmac::Hmac::<sha1::Sha1>::new_from_slice(key).ok()?;
    mac.update(message);
    Some(mac.finalize().into_bytes().to_vec())
}

/// `httpdate::fmt_http_date` on the instant `secs` seconds after the Unix
/// epoch. It panics from the year 10000 on, which `requires` rules out.
#[verifier::external_body]
pub(crate) fn http_date(secs: u64) -> (text: String)
    requires
        secs < DATE_LIMIT,
    ensures
        text@ == http_date_text(secs),
{
    httpdate::fmt_http_date(std::time::UNIX_EPOCH + std::time::Duration::from_secs(secs))
}

/// `Url::parse` on `base`, then `Url::set_path` with `path`; hands back
/// `Url::as_str` and `Url::path`, or the text of the parse error. The
/// parser keeps its offsets in 32 bits and `set_path` panics beyond them,
/// so `requires` keeps the input far below that size.
#[verifier::external_body]
pub(crate) fn build_url(base: &str, path: &str) -> (parts: Result<(String, String), String>)
    requires
        base@.len() + path@.len() <= ADDRESS_LIMIT,
    ensures
        match parts {
            Ok((url, url_path)) => url_with_path(base@, path@) == Ok::<
                (Seq<char>, Seq<char>),
                Seq<char>,
            >((url@, url_path@)),
            Err(complaint) => url_with_path(base@, path@) == Err::<
                (Seq<char>, Seq<char>),
                Seq<char>,
            >(complaint@),
        },
{
    match reqwest::Url::parse(base) {
        Ok(mut url) => {
            url.set_path(path);
            Ok((url.as_str().to_string(), url.path().to_string()))
        },
        Err(error) => Err(error.to_string()),
    }
}

} // verus!
