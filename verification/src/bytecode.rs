//! Circuit bytecode as the host sends it: gzip-compressed, then base64 text.

use base64::Engine;
use std::io::Read;
use vstd::prelude::*;

use crate::error::DecodeStage;
use crate::error::Error;

verus! {

/// What the standard base64 alphabet with padding decodes `text` to, if anything.
pub uninterp spec fn base64_decoding(text: Seq<char>) -> Option<Seq<u8>>;

/// What a gzip stream decompresses to, if `data` is one.
pub uninterp spec fn gzip_decoding(data: Seq<u8>) -> Option<Seq<u8>>;

/// Calls `decode` of base64's `STANDARD` engine. The result depends on the
/// text alone; the error comes back as its text.
#[verifier::external_body]
fn base64_decode(text: &str) -> (decoded: Result<Vec<u8>, String>)
    ensures
        match decoded {
            Ok(bytes) => base64_decoding(text@) == Some(bytes@),
            Err(_) => base64_decoding(text@) is None,
        },
{
    base64::engine::general_purpose::STANDARD.decode(text).map_err(|e| e.to_string())
}

/// Reads flate2's `GzDecoder` over `data` to its end. The result depends on
/// the data alone; the error comes back as its text.
#[verifier::external_body]
fn gunzip(data: &[u8]) -> (inflated: Result<Vec<u8>, String>)
    ensures
        match inflated {
            Ok(bytes) => gzip_decoding(data@) == Some(bytes@),
            Err(_) => gzip_decoding(data@) is None,
        },
{
    let mut inflated = Vec::new();
    match flate2::read::GzDecoder::new(data).read_to_end(&mut inflated) {
        Ok(_) => Ok(inflated),
        Err(e) => Err(e.to_string()),
    }
}

/// The bytecode that a transport text holds, or the stage at which decoding fails.
pub open spec fn bytecode_of(text: Seq<char>) -> Result<Seq<u8>, DecodeStage> {
    match base64_decoding(text) {
        None => Err(DecodeStage::Base64),
        Some(packed) => match gzip_decoding(packed) {
            None => Err(DecodeStage::Gzip),
            Some(bytes) => Ok(bytes),
        },
    }
}

/// Names the stage at which a decoder failed.
pub fn at_stage(stage: DecodeStage, outcome: Result<Vec<u8>, String>) -> (staged: Result<
    Vec<u8>,
    Error,
>)
    ensures
        match outcome {
            Ok(bytes) => staged matches Ok(same) && same@ == bytes@,
            Err(detail) => staged matches Err(Error::Decode(s, d)) && s == stage && d@ == detail@,
        },
{
    match outcome {
        Ok(bytes) => Ok(bytes),
        Err(detail) => Err(Error::Decode(stage, detail)),
    }
}

/// Decodes transport-encoded bytecode: base64 first, then gzip.
pub fn decode_bytecode(bytecode_b64_gz: &str) -> (decoded: Result<Vec<u8>, Error>)
    ensures
        match bytecode_of(bytecode_b64_gz@) {
            Ok(bytes) => decoded matches Ok(found) && found@ == bytes,
            Err(stage) => decoded matches Err(Error::Decode(at, _)) && at == stage,
        },
{
    let packed = at_stage(DecodeStage::Base64, base64_decode(bytecode_b64_gz))?;
    at_stage(DecodeStage::Gzip, gunzip(packed.as_slice()))
}

} // verus!
