//! Uploads to Alibaba Cloud OSS: the address of the object, the text that
//! is signed, the `Authorization` header, and the reading of the answer.

use crate::error::{lemma_rejection_names_status_and_body, UploadError, UploadErrorModel};
use crate::text::{decimal, occurs_in, strip_leading_slash, without_leading_slash};
use crate::trusted::{
    base64_encode,
    base64_encoding,
    build_url,
    hmac_sha1,
    hmac_sha1_code,
    http_date,
    http_date_text,
    url_with_path,
    ADDRESS_LIMIT,
    DATE_LIMIT,
};
use crate::UploadResult;
use vstd::prelude::*;
use vstd::string::*;
use vstd::utf8::encode_utf8;

verus! {

/// What signs a request to OSS, and the region that hosts the bucket.
#[derive(Clone, Debug, PartialEq, Eq)]
pub struct OssCredentials {
    pub region: String,
    pub access_key_id: String,
    pub access_key_secret: String,
}

/// A signed `PUT` request, ready to be sent as it stands.
#[derive(Clone, Debug, PartialEq, Eq)]
pub struct OssRequest {
    /// The address of the object.
    pub url: String,
    /// The `Date` header; the same text was signed.
    pub date: String,
    /// The `Content-Type` header; the same text was signed.
    pub content_type: String,
    /// The `Authorization` header.
    pub authorization: String,
    /// The bytes to store.
    pub body: Vec<u8>,
}

/// An `OssRequest` as sequences.
pub struct OssRequestModel {
    pub url: Seq<char>,
    pub date: Seq<char>,
    pub content_type: Seq<char>,
    pub authorization: Seq<char>,
    pub body: Seq<u8>,
}

impl View for OssRequest {
    type V = OssRequestModel;

    open spec fn view(&self) -> OssRequestModel {
        OssRequestModel {
            url: self.url@,
            date: self.date@,
            content_type: self.content_type@,
            authorization: self.authorization@,
            body: self.body@,
        }
    }
}

/// How sending a request to OSS ended.
#[derive(Clone, Debug, PartialEq, Eq)]
pub enum OssOutcome {
    /// No answer came: name lookup, TLS or the connection failed.
    Unreachable { details: String },
    /// OSS answered with this status and this body text.
    Answered { status: u16, body: String },
}

/// The content type that is sent and signed: the one given, or the
/// octet-stream type where none or an empty one is given.
pub open spec fn effective_content_type(content_type: Option<Seq<char>>) -> Seq<char> {
    if content_type is Some && content_type->0.len() > 0 {
        content_type->0
    } else {
        "application/octet-stream"@
    }
}

/// The host that serves `bucket` in `region`.
pub open spec fn oss_host(bucket: Seq<char>, region: Seq<char>) -> Seq<char> {
    bucket + "."@ + region + ".aliyuncs.com"@
}

/// The URL of the bucket, without a path.
pub open spec fn oss_base_url(bucket: Seq<char>, region: Seq<char>) -> Seq<char> {
    "https://"@ + oss_host(bucket, region)
}

/// The path that is asked of the URL for `key`: a slash, then the key
/// without one leading slash of its own.
pub open spec fn object_path(key: Seq<char>) -> Seq<char> {
    "/"@ + without_leading_slash(key)
}

/// The resource that is signed: the bucket and the path of the URL.
pub open spec fn canonicalized_resource(bucket: Seq<char>, url_path: Seq<char>) -> Seq<char> {
    "/"@ + bucket + url_path
}

/// The text that is signed. Its second line, for a content digest, is
/// empty; no line for further headers follows the date.
pub open spec fn string_to_sign(
    content_type: Seq<char>,
    date: Seq<char>,
    resource: Seq<char>,
) -> Seq<char> {
    "PUT\n\n"@ + content_type + "\n"@ + date + "\n"@ + resource
}

/// The signature of `text` under `secret`: the base64 of the HMAC-SHA1
/// code of the UTF-8 bytes of `text`, keyed with those of `secret`.
pub open spec fn signature_of(secret: Seq<char>, text: Seq<char>) -> Seq<char> {
    base64_encoding(hmac_sha1(encode_utf8(secret), encode_utf8(text)))
}

/// The value of the `Authorization` header.
pub open spec fn authorization(access_key_id: Seq<char>, signature: Seq<char>) -> Seq<char> {
    "OSS "@ + access_key_id + ":"@ + signature
}

/// The request that uploads `body` under `key`, or the reason why there
/// is none: bucket and region that do not make a URL.
pub open spec fn oss_request_of(
    region: Seq<char>,
    access_key_id: Seq<char>,
    access_key_secret: Seq<char>,
    bucket: Seq<char>,
    key: Seq<char>,
    content_type: Option<Seq<char>>,
    body: Seq<u8>,
    now_secs: u64,
) -> Result<OssRequestModel, UploadErrorModel> {
    match url_with_path(oss_base_url(bucket, region), object_path(key)) {
        Err(complaint) => Err(UploadErrorModel::BadAddress { details: complaint }),
        Ok((url, url_path)) => {
            let sent_type = effective_content_type(content_type);
            let date = http_date_text(now_secs);
            let signed = string_to_sign(sent_type, date, canonicalized_resource(bucket, url_path));
            Ok(
                OssRequestModel {
                    url,
                    date,
                    content_type: sent_type,
                    authorization: authorization(
                        access_key_id,
                        signature_of(access_key_secret, signed),
                    ),
                    body,
                },
            )
        },
    }
}

/// A status of the success class, 200 to 299.
pub open spec fn status_is_success(status: u16) -> bool {
    200 <= status <= 299
}

/// Tells whether `status` is of the success class.
pub fn is_success(status: u16) -> (success: bool)
    ensures
        success == status_is_success(status),
{
    200 <= status && status <= 299
}

/// The content type to send and sign for an upload to OSS.
pub fn content_type_or_default(content_type: Option<String>) -> (sent: String)
    ensures
        sent@ == effective_content_type(crate::payload::text_view(content_type)),
{
    match content_type {
        Some(given) => {
            if given.as_str().unicode_len() > 0 {
                given
            } else {
                "application/octet-stream".to_owned()
            }
        },
        None => "application/octet-stream".to_owned(),
    }
}

/// The URL of `bucket` in `region`, without a path.
pub fn base_url(bucket: &str, region: &str) -> (url: String)
    ensures
        url@ == oss_base_url(bucket@, region@),
{
    let mut url = "https://".to_owned();
    url.append(bucket);
    url.append(".");
    url.append(region);
    url.append(".aliyuncs.com");
    assert(url@ =~= oss_base_url(bucket@, region@));
    url
}

/// The path to ask of the URL for `key`.
pub fn path_for_key(key: &str) -> (path: String)
    ensures
        path@ == object_path(key@),
{
    let mut path = "/".to_owned();
    path.append(strip_leading_slash(key));
    path
}

/// The resource to sign for an object at `url_path` in `bucket`.
pub fn resource_to_sign(bucket: &str, url_path: &str) -> (resource: String)
    ensures
        resource@ == canonicalized_resource(bucket@, url_path@),
{
    let mut resource = "/".to_owned();
    resource.append(bucket);
    resource.append(url_path);
    resource
}

/// The text to sign for a `PUT` of `resource`.
pub fn text_to_sign(content_type: &str, date: &str, resource: &str) -> (text: String)
    ensures
        text@ == string_to_sign(content_type@, date@, resource@),
{
    let mut text = "PUT\n\n".to_owned();
    text.append(content_type);
    text.append("\n");
    text.append(date);
    text.append("\n");
    text.append(resource);
    text
}

/// Turns the outcome of the HMAC computation into a signature: the base64
/// of the code, or `BadSecret` where the key was refused.
pub fn signature_from_code(code: Option<Vec<u8>>) -> (signature: Result<String, UploadError>)
    requires
        code matches Some(c) ==> (c@.len() / 3 + 1) * 4 <= usize::MAX,
    ensures
        match code {
            Some(c) => signature matches Ok(s) && s@ == base64_encoding(c@),
            None => signature matches Err(e) && e@ == UploadErrorModel::BadSecret,
        },
{
    match code {
        Some(c) => Ok(base64_encode(c.as_slice())),
        None => Err(UploadError::BadSecret),
    }
}

/// Signs a `PUT` of `resource` with `secret`. The signature is decided by
/// the four texts alone: the same four always give the same one.
pub fn oss_signature(
    secret: &str,
    content_type: &str,
    date: &str,
    resource: &str,
) -> (signature: Result<String, UploadError>)
    ensures
        signature matches Ok(s) && s@ == signature_of(
            secret@,
            string_to_sign(content_type@, date@, resource@),
        ),
{
    let text = text_to_sign(content_type, date, resource);
    let code = hmac_sha1_code(secret.as_bytes(), text.as_str().as_bytes());
    signature_from_code(code)
}

/// The value of the `Authorization` header for a signature.
pub fn authorization_header(access_key_id: &str, signature: &str) -> (header: String)
    ensures
        header@ == authorization(access_key_id@, signature@),
{
    let mut header = "OSS ".to_owned();
    header.append(access_key_id);
    header.append(":");
    header.append(signature);
    header
}

/// Whether bucket, region and key are short enough for a URL to be built
/// from them.
pub open spec fn address_fits(bucket: Seq<char>, region: Seq<char>, key: Seq<char>) -> bool {
    oss_base_url(bucket, region).len() + object_path(key).len() <= ADDRESS_LIMIT
}

/// Tells whether `prepare_oss_upload` can take this bucket, region and
/// key: whether they are short enough for a URL to be built from them.
pub fn address_is_short_enough(bucket: &str, region: &str, key: &str) -> (fits: bool)
    ensures
        fits == address_fits(bucket@, region@, key@),
{
    proof {
        reveal_strlit("https://");
        reveal_strlit(".");
        reveal_strlit(".aliyuncs.com");
        reveal_strlit("/");
    }
    let bucket_len: usize = bucket.unicode_len();
    let region_len: usize = region.unicode_len();
    let path_len: usize = strip_leading_slash(key).unicode_len();
    if bucket_len > ADDRESS_LIMIT || region_len > ADDRESS_LIMIT || path_len > ADDRESS_LIMIT {
        false
    } else {
        bucket_len + region_len + path_len + 23 <= ADDRESS_LIMIT
    }
}

/// Builds the signed request that stores `body` under `key` in `bucket`,
/// dated `now_secs` seconds after the Unix epoch. Fails with `BadAddress`
/// where and only where bucket and region do not make a URL.
pub fn prepare_oss_upload(
    credentials: &OssCredentials,
    bucket: &str,
    key: &str,
    content_type: Option<String>,
    body: Vec<u8>,
    now_secs: u64,
) -> (request: Result<OssRequest, UploadError>)
    requires
        now_secs < DATE_LIMIT,
        address_fits(bucket@, credentials.region@, key@),
    ensures
        match oss_request_of(
            credentials.region@,
            credentials.access_key_id@,
            credentials.access_key_secret@,
            bucket@,
            key@,
            crate::payload::text_view(content_type),
            body@,
            now_secs,
        ) {
            Ok(model) => request matches Ok(r) && r@ == model,
            Err(error) => request matches Err(e) && e@ == error,
        },
{
    let sent_type = content_type_or_default(content_type);
    let base = base_url(bucket, credentials.region.as_str());
    let path = path_for_key(key);
    match build_url(base.as_str(), path.as_str()) {
        Err(complaint) => Err(UploadError::BadAddress { details: complaint }),
        Ok((url, url_path)) => {
            let date = http_date(now_secs);
            let resource = resource_to_sign(bucket, url_path.as_str());
            match oss_signature(
                credentials.access_key_secret.as_str(),
                sent_type.as_str(),
                date.as_str(),
                resource.as_str(),
            ) {
                Err(error) => Err(error),
                Ok(signature) => {
                    let header = authorization_header(
                        credentials.access_key_id.as_str(),
                        signature.as_str(),
                    );
                    Ok(
                        OssRequest {
                            url,
                            date,
                            content_type: sent_type,
                            authorization: header,
                            body,
                        },
                    )
                },
            }
        },
    }
}

/// What the caller is told once the request has been sent: the key on a
/// status of the success class, else the failure.
pub open spec fn oss_result_of(key: Seq<char>, outcome: OssOutcome) -> Result<
    Seq<char>,
    UploadErrorModel,
> {
    match outcome {
        OssOutcome::Unreachable { details } => Err(
            UploadErrorModel::OssUnreachable { details: details@ },
        ),
        OssOutcome::Answered { status, body } => if status_is_success(status) {
            Ok(key)
        } else {
            Err(UploadErrorModel::OssRejected { status, body: body@ })
        },
    }
}

/// Reads the outcome of the request. On success the key comes back as it
/// was given, leading slash and all.
pub fn conclude_oss_upload(key: String, outcome: OssOutcome) -> (result: Result<
    UploadResult,
    UploadError,
>)
    ensures
        match oss_result_of(key@, outcome) {
            Ok(echo) => result matches Ok(r) && r.key@ == echo,
            Err(error) => result matches Err(e) && e@ == error,
        },
{
    match outcome {
        OssOutcome::Unreachable { details } => Err(UploadError::OssUnreachable { details }),
        OssOutcome::Answered { status, body } => {
            if is_success(status) {
                Ok(UploadResult { key })
            } else {
                Err(UploadError::OssRejected { status, body })
            }
        },
    }
}

/// One leading slash of the key, and no more, is left out of the path
/// that is asked of the URL: a key that starts with a slash is its own
/// path, any other key follows a slash.
pub proof fn lemma_one_leading_slash_dropped(key: Seq<char>)
    ensures
        key.len() > 0 && key[0] == '/' ==> object_path(key) == key,
        key.len() == 0 || key[0] != '/' ==> object_path(key) == "/"@ + key,
{
    reveal_strlit("/");
    if key.len() > 0 && key[0] == '/' {
        assert(object_path(key) =~= key);
    }
}

/// A successful upload hands the key back as it was given, whatever path
/// was made of it.
pub proof fn lemma_key_is_echoed(key: Seq<char>, status: u16, body: String)
    requires
        status_is_success(status),
    ensures
        oss_result_of(key, OssOutcome::Answered { status, body }) == Ok::<
            Seq<char>,
            UploadErrorModel,
        >(key),
{
}

/// With no content type given, or an empty one, the octet-stream type is
/// sent and signed.
pub proof fn lemma_content_type_defaults()
    ensures
        effective_content_type(None) == "application/octet-stream"@,
        effective_content_type(Some(Seq::<char>::empty())) == "application/octet-stream"@,
{
}

/// An answer outside the success class fails the upload, and the text of
/// the failure holds the status as a decimal numeral and the body.
pub proof fn lemma_rejection_is_reported(key: Seq<char>, status: u16, body: String)
    requires
        !status_is_success(status),
    ensures
        oss_result_of(key, OssOutcome::Answered { status, body }) matches Err(e) && occurs_in(
            decimal(status as nat),
            e.message(),
        ) && occurs_in(body@, e.message()),
{
    lemma_rejection_names_status_and_body(status, body@);
}

/// The result of a call speaks of that call's key alone: where two calls
/// carry different keys, neither can succeed with the other's key.
pub proof fn lemma_calls_do_not_mix(
    key_a: Seq<char>,
    outcome_a: OssOutcome,
    key_b: Seq<char>,
    outcome_b: OssOutcome,
)
    requires
        key_a != key_b,
    ensures
        oss_result_of(key_a, outcome_a) matches Ok(echo) ==> echo == key_a && echo != key_b,
        oss_result_of(key_b, outcome_b) matches Ok(echo) ==> echo == key_b && echo != key_a,
{
}

} // verus!
