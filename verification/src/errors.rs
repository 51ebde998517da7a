//! The error taxonomy of the decoder. Every failure is terminal for the
//! current decode: no partial output is ever produced.

use vstd::prelude::*;

verus! {

#[derive(Clone, Copy, PartialEq, Eq, Structural, Debug)]
pub enum NcmError {
    /// The 8-byte magic header is absent or wrong.
    NotNcmFormat,
    /// The buffer ends before a declared length field is satisfied.
    Truncated,
    /// AES decryption or PKCS7 unpadding failed, or the decrypted key blob is
    /// too short to hold any key material.
    CryptoError,
    /// The metadata blob holds malformed base64, malformed JSON, or is too
    /// short to hold its fixed markers.
    MetadataParseError,
    /// The cover image matches none of PNG, JPEG or GIF.
    UnknownImageFormat,
    /// The decoded audio does not carry a well-formed FLAC or ID3 structure
    /// where tags must be rewritten.
    TagParseError,
}

pub open spec fn message_spec(e: NcmError) -> Seq<char> {
    match e {
        NcmError::NotNcmFormat => "This file is not in ncm format"@,
        NcmError::Truncated => "unexpected end of input"@,
        NcmError::CryptoError => "AES decryption failed"@,
        NcmError::MetadataParseError => "malformed metadata"@,
        NcmError::UnknownImageFormat => "unknown image mime type"@,
        NcmError::TagParseError => "malformed audio tags"@,
    }
}

impl NcmError {
    /// A human-readable description, reported in the result's status field.
    pub fn message(&self) -> (r: &'static str)
        ensures
            r@ == message_spec(*self),
    {
        match self {
            NcmError::NotNcmFormat => "This file is not in ncm format",
            NcmError::Truncated => "unexpected end of input",
            NcmError::CryptoError => "AES decryption failed",
            NcmError::MetadataParseError => "malformed metadata",
            NcmError::UnknownImageFormat => "unknown image mime type",
            NcmError::TagParseError => "malformed audio tags",
        }
    }
}

} // verus!
