//! Where the bytes of an upload come from: a file, base64 text or a raw
//! body, in that order of precedence.

use crate::error::{ErrorKind, UploadError, UploadErrorModel};
use crate::text::{blank, is_blank};
use crate::trusted::{base64_decode, base64_decoding};
use vstd::prelude::*;
use vstd::string::*;

verus! {

/// The one source that a call takes its content from.
#[derive(Clone, Debug, PartialEq, Eq)]
pub enum PayloadSource {
    /// The path of a file whose whole contents are the payload.
    FilePath(String),
    /// The payload in standard base64, with padding.
    Base64Body(String),
    /// The payload itself.
    RawBody(Vec<u8>),
}

/// A `PayloadSource` as sequences.
pub enum PayloadSourceModel {
    FilePath(Seq<char>),
    Base64Body(Seq<char>),
    RawBody(Seq<u8>),
}

impl View for PayloadSource {
    type V = PayloadSourceModel;

    open spec fn view(&self) -> PayloadSourceModel {
        match self {
            PayloadSource::FilePath(path) => PayloadSourceModel::FilePath(path@),
            PayloadSource::Base64Body(text) => PayloadSourceModel::Base64Body(text@),
            PayloadSource::RawBody(bytes) => PayloadSourceModel::RawBody(bytes@),
        }
    }
}

/// What is known of the payload before any file is opened.
#[derive(Clone, Debug, PartialEq, Eq)]
pub enum Resolution {
    /// The payload is at hand.
    Ready(Vec<u8>),
    /// The payload is the contents of the file at this path.
    ReadFile(String),
}

/// A `Resolution` as sequences.
pub enum ResolutionModel {
    Ready(Seq<u8>),
    ReadFile(Seq<char>),
}

impl View for Resolution {
    type V = ResolutionModel;

    open spec fn view(&self) -> ResolutionModel {
        match self {
            Resolution::Ready(bytes) => ResolutionModel::Ready(bytes@),
            Resolution::ReadFile(path) => ResolutionModel::ReadFile(path@),
        }
    }
}

/// The characters of an optional text.
pub open spec fn text_view(text: Option<String>) -> Option<Seq<char>> {
    match text {
        Some(t) => Some(t@),
        None => None,
    }
}

/// The bytes of an optional body.
pub open spec fn bytes_view(bytes: Option<Vec<u8>>) -> Option<Seq<u8>> {
    match bytes {
        Some(b) => Some(b@),
        None => None,
    }
}

/// The source that wins among the three that a call may give: the file
/// path unless it is absent or blank, else the base64 text, else the raw
/// body. With none of them there is no source.
pub open spec fn chosen_source(
    file_path: Option<Seq<char>>,
    body_base64: Option<Seq<char>>,
    body: Option<Seq<u8>>,
) -> Option<PayloadSourceModel> {
    if file_path is Some && !blank(file_path->0) {
        Some(PayloadSourceModel::FilePath(file_path->0))
    } else if body_base64 is Some {
        Some(PayloadSourceModel::Base64Body(body_base64->0))
    } else if body is Some {
        Some(PayloadSourceModel::RawBody(body->0))
    } else {
        None
    }
}

/// What a source resolves to without touching the disk: a file is still
/// to be read, base64 text is decoded as a whole or refused, a raw body
/// is taken as it is.
pub open spec fn resolution_of(source: PayloadSourceModel) -> Result<
    ResolutionModel,
    UploadErrorModel,
> {
    match source {
        PayloadSourceModel::FilePath(path) => Ok(ResolutionModel::ReadFile(path)),
        PayloadSourceModel::Base64Body(text) => match base64_decoding(text) {
            Some(bytes) => Ok(ResolutionModel::Ready(bytes)),
            None => Err(UploadErrorModel::MalformedBase64),
        },
        PayloadSourceModel::RawBody(bytes) => Ok(ResolutionModel::Ready(bytes)),
    }
}

/// What the attempt to read a file gives: its contents, or a read failure
/// that carries the reason.
pub open spec fn file_payload_of(outcome: Result<Seq<u8>, Seq<char>>) -> Result<
    Seq<u8>,
    UploadErrorModel,
> {
    match outcome {
        Ok(bytes) => Ok(bytes),
        Err(details) => Err(UploadErrorModel::ReadFailed { details }),
    }
}

/// The payload of a call, from what it was given and from what reading
/// the file, if one is read, turns out to give.
pub open spec fn payload_of(
    file_path: Option<Seq<char>>,
    body_base64: Option<Seq<char>>,
    body: Option<Seq<u8>>,
    file: Result<Seq<u8>, Seq<char>>,
) -> Result<Seq<u8>, UploadErrorModel> {
    match chosen_source(file_path, body_base64, body) {
        None => Err(UploadErrorModel::NoContent),
        Some(source) => match resolution_of(source) {
            Err(error) => Err(error),
            Ok(ResolutionModel::Ready(bytes)) => Ok(bytes),
            Ok(ResolutionModel::ReadFile(_)) => file_payload_of(file),
        },
    }
}

/// Picks the source of the payload: the first of file path, base64 text
/// and raw body that is there, a blank file path counting as absent.
/// Fails with `NoContent` when none is there.
pub fn select_source(
    file_path: Option<String>,
    body_base64: Option<String>,
    body: Option<Vec<u8>>,
) -> (chosen: Result<PayloadSource, UploadError>)
    ensures
        match chosen_source(text_view(file_path), text_view(body_base64), bytes_view(body)) {
            Some(source) => chosen matches Ok(s) && s@ == source,
            None => chosen matches Err(e) && e@ == UploadErrorModel::NoContent,
        },
{
    if let Some(path) = file_path {
        if !is_blank(path.as_str()) {
            return Ok(PayloadSource::FilePath(path));
        }
    }
    if let Some(text) = body_base64 {
        Ok(PayloadSource::Base64Body(text))
    } else if let Some(bytes) = body {
        Ok(PayloadSource::RawBody(bytes))
    } else {
        Err(UploadError::NoContent)
    }
}

/// Turns the outcome of a base64 decode into a payload: the decoded
/// bytes, or `MalformedBase64` where there are none.
pub fn decoded_payload(decoded: Option<Vec<u8>>) -> (payload: Result<Resolution, UploadError>)
    ensures
        match decoded {
            Some(bytes) => payload matches Ok(r) && r@ == ResolutionModel::Ready(bytes@),
            None => payload matches Err(e) && e@ == UploadErrorModel::MalformedBase64,
        },
{
    match decoded {
        Some(bytes) => Ok(Resolution::Ready(bytes)),
        None => Err(UploadError::MalformedBase64),
    }
}

/// Resolves a source as far as memory allows. Base64 text is decoded
/// whole or refused; a file path is handed back for the caller to read.
pub fn resolve_source(source: PayloadSource) -> (resolved: Result<Resolution, UploadError>)
    ensures
        match resolution_of(source@) {
            Ok(resolution) => resolved matches Ok(r) && r@ == resolution,
            Err(error) => resolved matches Err(e) && e@ == error,
        },
{
    match source {
        PayloadSource::FilePath(path) => Ok(Resolution::ReadFile(path)),
        PayloadSource::Base64Body(text) => decoded_payload(base64_decode(text.as_str())),
        PayloadSource::RawBody(bytes) => Ok(Resolution::Ready(bytes)),
    }
}

/// Turns the outcome of reading the file into a payload: its contents,
/// or `ReadFailed` with the reason.
pub fn file_payload(outcome: Result<Vec<u8>, String>) -> (payload: Result<Vec<u8>, UploadError>)
    ensures
        match outcome {
            Ok(bytes) => payload matches Ok(b) && b@ == bytes@,
            Err(details) => payload matches Err(e) && e@ == (UploadErrorModel::ReadFailed {
                details: details@,
            }),
        },
{
    match outcome {
        Ok(bytes) => Ok(bytes),
        Err(details) => Err(UploadError::ReadFailed { details }),
    }
}

/// With exactly one source given, the payload is what that source holds:
/// the file's contents, the decoded text, or the body.
pub proof fn lemma_sole_source_decides(
    file_path: Option<Seq<char>>,
    body_base64: Option<Seq<char>>,
    body: Option<Seq<u8>>,
    file: Result<Seq<u8>, Seq<char>>,
)
    ensures
        file_path is Some && !blank(file_path->0) && body_base64 is None && body is None
            ==> payload_of(file_path, body_base64, body, file) == file_payload_of(file),
        file_path is None && body_base64 is Some && body is None && base64_decoding(
            body_base64->0,
        ) is Some ==> payload_of(file_path, body_base64, body, file) == Ok::<
            Seq<u8>,
            UploadErrorModel,
        >(base64_decoding(body_base64->0)->0),
        file_path is None && body_base64 is None && body is Some ==> payload_of(
            file_path,
            body_base64,
            body,
            file,
        ) == Ok::<Seq<u8>, UploadErrorModel>(body->0),
{
}

/// With several sources given, the file path wins over the other two and
/// the base64 text wins over the raw body: what the losers hold does not
/// matter.
pub proof fn lemma_precedence(
    file_path: Option<Seq<char>>,
    body_base64: Option<Seq<char>>,
    body: Option<Seq<u8>>,
    other_base64: Option<Seq<char>>,
    other_body: Option<Seq<u8>>,
    file: Result<Seq<u8>, Seq<char>>,
)
    ensures
        file_path is Some && !blank(file_path->0) ==> payload_of(
            file_path,
            body_base64,
            body,
            file,
        ) == payload_of(file_path, other_base64, other_body, file) && payload_of(
            file_path,
            body_base64,
            body,
            file,
        ) == file_payload_of(file),
        (file_path is None || blank(file_path->0)) && body_base64 is Some ==> payload_of(
            file_path,
            body_base64,
            body,
            file,
        ) == payload_of(file_path, body_base64, other_body, file),
{
}

/// A file path that is empty or all white space counts as no file path.
pub proof fn lemma_blank_path_is_absent(
    file_path: Seq<char>,
    body_base64: Option<Seq<char>>,
    body: Option<Seq<u8>>,
)
    requires
        blank(file_path),
    ensures
        chosen_source(Some(file_path), body_base64, body) == chosen_source(
            None,
            body_base64,
            body,
        ),
{
}

/// Base64 text that does not decode is refused as invalid input, and no
/// part of it becomes a payload.
pub proof fn lemma_malformed_base64_is_refused(
    file_path: Option<Seq<char>>,
    text: Seq<char>,
    body: Option<Seq<u8>>,
    file: Result<Seq<u8>, Seq<char>>,
)
    requires
        file_path is None || blank(file_path->0),
        base64_decoding(text) is None,
    ensures
        payload_of(file_path, Some(text), body, file) == Err::<Seq<u8>, UploadErrorModel>(
            UploadErrorModel::MalformedBase64,
        ),
        UploadErrorModel::MalformedBase64.kind() == ErrorKind::InvalidInput,
{
}

} // verus!
