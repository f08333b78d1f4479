//! The ways an upload can fail, and the text each failure is reported with.

use crate::text::{decimal, decimal_text, lemma_middle_occurs, occurs_in};
use vstd::prelude::*;
use vstd::string::*;

verus! {

/// The class a failure belongs to.
#[derive(Clone, Copy, Debug, PartialEq, Eq, Structural)]
pub enum ErrorKind {
    /// The request itself cannot be served as given.
    InvalidInput,
    /// The file named as the content could not be read.
    IoError,
    /// The secret could not be used as a signing key.
    CredentialError,
    /// The provider could not be reached, or the transfer broke down.
    TransportError,
    /// The provider answered with a status outside the success class.
    ProviderError,
}

/// A failed upload. Every failure ends its call: nothing is retried.
#[derive(Clone, Debug, PartialEq, Eq)]
pub enum UploadError {
    /// No file path, base64 text or raw body was given.
    NoContent,
    /// The base64 text is malformed.
    MalformedBase64,
    /// Reading the file failed; `details` says how.
    ReadFailed { details: String },
    /// Bucket and region do not make a URL; `details` is the parser's complaint.
    BadAddress { details: String },
    /// The access key secret was refused as an HMAC key.
    BadSecret,
    /// The R2 upload failed, in transport or at the provider.
    R2Failed { details: String },
    /// The OSS request got no answer.
    OssUnreachable { details: String },
    /// OSS answered with a status outside the success class.
    OssRejected { status: u16, body: String },
}

/// An `UploadError` with its texts as sequences of characters.
pub enum UploadErrorModel {
    NoContent,
    MalformedBase64,
    ReadFailed { details: Seq<char> },
    BadAddress { details: Seq<char> },
    BadSecret,
    R2Failed { details: Seq<char> },
    OssUnreachable { details: Seq<char> },
    OssRejected { status: u16, body: Seq<char> },
}

impl UploadErrorModel {
    /// The class of this failure.
    pub open spec fn kind(self) -> ErrorKind {
        match self {
            UploadErrorModel::NoContent => ErrorKind::InvalidInput,
            UploadErrorModel::MalformedBase64 => ErrorKind::InvalidInput,
            UploadErrorModel::ReadFailed { .. } => ErrorKind::IoError,
            UploadErrorModel::BadAddress { .. } => ErrorKind::InvalidInput,
            UploadErrorModel::BadSecret => ErrorKind::CredentialError,
            UploadErrorModel::R2Failed { .. } => ErrorKind::TransportError,
            UploadErrorModel::OssUnreachable { .. } => ErrorKind::TransportError,
            UploadErrorModel::OssRejected { .. } => ErrorKind::ProviderError,
        }
    }

    /// The one line of text that the caller is shown.
    pub open spec fn message(self) -> Seq<char> {
        match self {
            UploadErrorModel::NoContent => "no upload content provided"@,
            UploadErrorModel::MalformedBase64 => "decode failed"@,
            UploadErrorModel::ReadFailed { details } => "read failed: "@ + details,
            UploadErrorModel::BadAddress { details } => details,
            UploadErrorModel::BadSecret => "AccessKeySecret invalid"@,
            UploadErrorModel::R2Failed { details } => "R2 upload failed: "@ + details,
            UploadErrorModel::OssUnreachable { details } => "Aliyun upload request failed: "@
                + details,
            UploadErrorModel::OssRejected { status, body } => "Aliyun upload failed: "@ + decimal(
                status as nat,
            ) + " "@ + body,
        }
    }
}

impl View for UploadError {
    type V = UploadErrorModel;

    open spec fn view(&self) -> UploadErrorModel {
        match self {
            UploadError::NoContent => UploadErrorModel::NoContent,
            UploadError::MalformedBase64 => UploadErrorModel::MalformedBase64,
            UploadError::ReadFailed { details } => UploadErrorModel::ReadFailed {
                details: details@,
            },
            UploadError::BadAddress { details } => UploadErrorModel::BadAddress {
                details: details@,
            },
            UploadError::BadSecret => UploadErrorModel::BadSecret,
            UploadError::R2Failed { details } => UploadErrorModel::R2Failed { details: details@ },
            UploadError::OssUnreachable { details } => UploadErrorModel::OssUnreachable {
                details: details@,
            },
            UploadError::OssRejected { status, body } => UploadErrorModel::OssRejected {
                status: *status,
                body: body@,
            },
        }
    }
}

fn prefixed(prefix: &str, rest: &str) -> (text: String)
    ensures
        text@ == prefix@ + rest@,
{
    let mut text = prefix.to_owned();
    text.append(rest);
    text
}

impl UploadError {
    /// The class of this failure.
    pub fn kind(&self) -> (kind: ErrorKind)
        ensures
            kind == self@.kind(),
    {
        match self {
            UploadError::NoContent => ErrorKind::InvalidInput,
            UploadError::MalformedBase64 => ErrorKind::InvalidInput,
            UploadError::ReadFailed { .. } => ErrorKind::IoError,
            UploadError::BadAddress { .. } => ErrorKind::InvalidInput,
            UploadError::BadSecret => ErrorKind::CredentialError,
            UploadError::R2Failed { .. } => ErrorKind::TransportError,
            UploadError::OssUnreachable { .. } => ErrorKind::TransportError,
            UploadError::OssRejected { .. } => ErrorKind::ProviderError,
        }
    }

    /// The one line of text that the caller is shown.
    pub fn message(&self) -> (text: String)
        ensures
            text@ == self@.message(),
    {
        match self {
            UploadError::NoContent => "no upload content provided".to_owned(),
            UploadError::MalformedBase64 => "decode failed".to_owned(),
            UploadError::ReadFailed { details } => prefixed("read failed: ", details.as_str()),
            UploadError::BadAddress { details } => details.clone(),
            UploadError::BadSecret => "AccessKeySecret invalid".to_owned(),
            UploadError::R2Failed { details } => prefixed("R2 upload failed: ", details.as_str()),
            UploadError::OssUnreachable { details } => prefixed(
                "Aliyun upload request failed: ",
                details.as_str(),
            ),
            UploadError::OssRejected { status, body } => {
                let number = decimal_text(*status);
                let mut text = prefixed("Aliyun upload failed: ", number.as_str());
                text.append(" ");
                text.append(body.as_str());
                text
            },
        }
    }
}

/// The text of a rejection by OSS holds the status as a decimal numeral
/// and the body of the answer, each in one piece.
pub proof fn lemma_rejection_names_status_and_body(status: u16, body: Seq<char>)
    ensures
        occurs_in(
            decimal(status as nat),
            (UploadErrorModel::OssRejected { status, body }).message(),
        ),
        occurs_in(body, (UploadErrorModel::OssRejected { status, body }).message()),
{
    let text = (UploadErrorModel::OssRejected { status, body }).message();
    let head = "Aliyun upload failed: "@;
    let number = decimal(status as nat);
    lemma_middle_occurs(head, number, " "@ + body);
    assert(text =~= head + number + (" "@ + body));
    lemma_middle_occurs(head + number + " "@, body, Seq::<char>::empty());
    assert(text =~= head + number + " "@ + body + Seq::<char>::empty());
}

} // verus!
