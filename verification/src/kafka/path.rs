//! Paths of the files that the TLS settings name.

use crate::kafka::error::KafkaError;
use crate::text::from_utf8;
use vstd::prelude::*;
use vstd::utf8::{decode_utf8, valid_utf8};

verus! {

/// A file path, as the bytes in which the platform encodes it.
///
/// The encoding is UTF-8 wherever the path is valid Unicode.
#[derive(Clone, Debug)]
pub struct FilePath {
    pub bytes: Vec<u8>,
}

impl View for FilePath {
    type V = Seq<u8>;

    open spec fn view(&self) -> Seq<u8> {
        self.bytes@
    }
}

impl FilePath {
    pub fn new(bytes: Vec<u8>) -> (path: FilePath)
        ensures
            path@ == bytes@,
            path.bytes == bytes,
    {
        FilePath { bytes }
    }
}

/// The path as text; the path itself is refused where it is not valid Unicode.
pub fn pathbuf_to_string(path: &FilePath) -> (text: Result<&str, KafkaError>)
    ensures
        match text {
            Ok(s) => valid_utf8(path@) && s@ == decode_utf8(path@),
            Err(e) => !valid_utf8(path@) && (e matches KafkaError::InvalidPath { path: refused }
                && refused@ == path@),
        },
        text is Ok <==> valid_utf8(path.bytes@),
        text matches Ok(s) ==> s@ == decode_utf8(path.bytes@),
        text matches Err(e) ==> (e matches KafkaError::InvalidPath { path: refused }
            && refused.bytes@ == path.bytes@),
{
    match from_utf8(path.bytes.as_slice()) {
        Some(s) => Ok(s),
        None => Err(KafkaError::InvalidPath { path: copy_path(path) }),
    }
}

fn copy_path(path: &FilePath) -> (copy: FilePath)
    ensures
        copy@ == path@,
        copy.bytes@ == path.bytes@,
{
    let mut bytes: Vec<u8> = Vec::new();
    bytes.extend_from_slice(path.bytes.as_slice());
    FilePath { bytes }
}

} // verus!
