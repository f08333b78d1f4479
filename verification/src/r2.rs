//! Uploads to Cloudflare R2: the settings of the S3 client and the
//! parameters of the one `PutObject` call. Signing and transport are the
//! client's business.

use crate::error::{UploadError, UploadErrorModel};
use crate::payload::text_view;
use crate::UploadResult;
use vstd::prelude::*;
use vstd::string::*;

verus! {

/// The account and the key pair that sign a request to R2.
#[derive(Clone, Debug, PartialEq, Eq)]
pub struct R2Credentials {
    pub account_id: String,
    pub access_key_id: String,
    pub secret_access_key: String,
}

/// All that the S3 client is told for one upload.
#[derive(Clone, Debug, PartialEq, Eq)]
pub struct R2Request {
    /// The endpoint of the account.
    pub endpoint: String,
    /// The region: always `auto`.
    pub region: String,
    /// Whether the bucket goes into the path, not the host: always so.
    pub force_path_style: bool,
    pub access_key_id: String,
    pub secret_access_key: String,
    /// The session token: never one.
    pub session_token: Option<String>,
    /// The label that says where the credentials come from.
    pub provider_name: &'static str,
    pub bucket: String,
    pub key: String,
    /// The content type to attach, if any.
    pub content_type: Option<String>,
    /// The bytes to store.
    pub body: Vec<u8>,
}

/// An `R2Request` as sequences.
pub struct R2RequestModel {
    pub endpoint: Seq<char>,
    pub region: Seq<char>,
    pub force_path_style: bool,
    pub access_key_id: Seq<char>,
    pub secret_access_key: Seq<char>,
    pub session_token: Option<Seq<char>>,
    pub provider_name: Seq<char>,
    pub bucket: Seq<char>,
    pub key: Seq<char>,
    pub content_type: Option<Seq<char>>,
    pub body: Seq<u8>,
}

impl View for R2Request {
    type V = R2RequestModel;

    open spec fn view(&self) -> R2RequestModel {
        R2RequestModel {
            endpoint: self.endpoint@,
            region: self.region@,
            force_path_style: self.force_path_style,
            access_key_id: self.access_key_id@,
            secret_access_key: self.secret_access_key@,
            session_token: text_view(self.session_token),
            provider_name: self.provider_name@,
            bucket: self.bucket@,
            key: self.key@,
            content_type: text_view(self.content_type),
            body: self.body@,
        }
    }
}

/// The endpoint of an account.
pub open spec fn r2_endpoint(account_id: Seq<char>) -> Seq<char> {
    "https://"@ + account_id + ".r2.cloudflarestorage.com"@
}

/// The content type that is attached to the call: the one given, unless
/// it is empty. With none attached the provider's default applies.
pub open spec fn attached_content_type(content_type: Option<Seq<char>>) -> Option<Seq<char>> {
    if content_type is Some && content_type->0.len() > 0 {
        content_type
    } else {
        None
    }
}

/// What the S3 client is told to store `body` under `key` in `bucket`.
pub open spec fn r2_request_of(
    account_id: Seq<char>,
    access_key_id: Seq<char>,
    secret_access_key: Seq<char>,
    bucket: Seq<char>,
    key: Seq<char>,
    content_type: Option<Seq<char>>,
    body: Seq<u8>,
) -> R2RequestModel {
    R2RequestModel {
        endpoint: r2_endpoint(account_id),
        region: "auto"@,
        force_path_style: true,
        access_key_id,
        secret_access_key,
        session_token: None,
        provider_name: "r2-upload"@,
        bucket,
        key,
        content_type: attached_content_type(content_type),
        body,
    }
}

/// The endpoint of the account `account_id`.
pub fn endpoint_for(account_id: &str) -> (endpoint: String)
    ensures
        endpoint@ == r2_endpoint(account_id@),
{
    let mut endpoint = "https://".to_owned();
    endpoint.append(account_id);
    endpoint.append(".r2.cloudflarestorage.com");
    endpoint
}

/// The content type to attach to the call, if any.
pub fn content_type_to_attach(content_type: Option<String>) -> (attached: Option<String>)
    ensures
        text_view(attached) == attached_content_type(text_view(content_type)),
{
    match content_type {
        Some(given) => {
            if given.as_str().unicode_len() > 0 {
                Some(given)
            } else {
                None
            }
        },
        None => None,
    }
}

/// Lays down the client settings and the call that store `body` under
/// `key` in `bucket`. Region and addressing style are fixed; the caller
/// has no say in them.
pub fn prepare_r2_upload(
    credentials: R2Credentials,
    bucket: String,
    key: String,
    content_type: Option<String>,
    body: Vec<u8>,
) -> (request: R2Request)
    ensures
        request@ == r2_request_of(
            credentials.account_id@,
            credentials.access_key_id@,
            credentials.secret_access_key@,
            bucket@,
            key@,
            text_view(content_type),
            body@,
        ),
{
    let endpoint = endpoint_for(credentials.account_id.as_str());
    let attached = content_type_to_attach(content_type);
    R2Request {
        endpoint,
        region: "auto".to_owned(),
        force_path_style: true,
        access_key_id: credentials.access_key_id,
        secret_access_key: credentials.secret_access_key,
        session_token: None,
        provider_name: "r2-upload",
        bucket,
        key,
        content_type: attached,
        body,
    }
}

/// What the caller is told once the client has returned: the key, or the
/// failure with the client's account of it.
pub open spec fn r2_result_of(key: Seq<char>, outcome: Result<(), String>) -> Result<
    Seq<char>,
    UploadErrorModel,
> {
    match outcome {
        Ok(_) => Ok(key),
        Err(details) => Err(UploadErrorModel::R2Failed { details: details@ }),
    }
}

/// Reads the outcome of the call. On success the key comes back as it
/// was given.
pub fn conclude_r2_upload(key: String, outcome: Result<(), String>) -> (result: Result<
    UploadResult,
    UploadError,
>)
    ensures
        match r2_result_of(key@, outcome) {
            Ok(echo) => result matches Ok(r) && r.key@ == echo,
            Err(error) => result matches Err(e) && e@ == error,
        },
{
    match outcome {
        Ok(_) => Ok(UploadResult { key }),
        Err(details) => Err(UploadError::R2Failed { details }),
    }
}

/// Whatever the caller gives, the client is told the region `auto` and
/// path-style addressing, and is given no session token.
pub proof fn lemma_r2_addressing_is_fixed(
    account_id: Seq<char>,
    access_key_id: Seq<char>,
    secret_access_key: Seq<char>,
    bucket: Seq<char>,
    key: Seq<char>,
    content_type: Option<Seq<char>>,
    body: Seq<u8>,
)
    ensures
        r2_request_of(
            account_id,
            access_key_id,
            secret_access_key,
            bucket,
            key,
            content_type,
            body,
        ).region == "auto"@,
        r2_request_of(
            account_id,
            access_key_id,
            secret_access_key,
            bucket,
            key,
            content_type,
            body,
        ).force_path_style,
        r2_request_of(
            account_id,
            access_key_id,
            secret_access_key,
            bucket,
            key,
            content_type,
            body,
        ).session_token is None,
{
}

/// The result of a call speaks of that call's key alone: where two calls
/// carry different keys, neither can succeed with the other's key.
pub proof fn lemma_r2_calls_do_not_mix(
    key_a: Seq<char>,
    outcome_a: Result<(), String>,
    key_b: Seq<char>,
    outcome_b: Result<(), String>,
)
    requires
        key_a != key_b,
    ensures
        r2_result_of(key_a, outcome_a) matches Ok(echo) ==> echo == key_a && echo != key_b,
        r2_result_of(key_b, outcome_b) matches Ok(echo) ==> echo == key_b && echo != key_a,
{
}

/// With no content type given, or an empty one, none is attached.
pub proof fn lemma_r2_omits_absent_content_type(
    account_id: Seq<char>,
    access_key_id: Seq<char>,
    secret_access_key: Seq<char>,
    bucket: Seq<char>,
    key: Seq<char>,
    body: Seq<u8>,
)
    ensures
        r2_request_of(
            account_id,
            access_key_id,
            secret_access_key,
            bucket,
            key,
            None,
            body,
        ).content_type is None,
        r2_request_of(
            account_id,
            access_key_id,
            secret_access_key,
            bucket,
            key,
            Some(Seq::<char>::empty()),
            body,
        ).content_type is None,
{
}

} // verus!
