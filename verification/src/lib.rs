//! Builds the requests that upload a blob of bytes to Cloudflare R2 or to
//! Alibaba Cloud OSS, and turns the providers' answers into one result.
//!
//! Nothing here opens a file or a socket. The caller reads the file, tells
//! the time and sends the request; this library decides what is sent and
//! what the answer means.

pub mod error;
pub mod oss;
pub mod payload;
pub mod r2;
pub mod text;
pub mod trusted;

use vstd::prelude::*;

verus! {

/// A finished upload: the object key, as the caller gave it.
#[derive(Clone, Debug, PartialEq, Eq)]
pub struct UploadResult {
    pub key: String,
}

} // verus!
