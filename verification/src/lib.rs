//! Decoder for the NCM encrypted audio container: header validation, AES-ECB
//! key and metadata recovery, keystream derivation, XOR stream decryption of
//! the audio payload, and re-embedding of metadata into the decoded FLAC or
//! MP3 stream.

pub mod crypto;
pub mod errors;
pub mod formats;
pub mod keystream;
pub mod metadata;
pub mod ncm;
pub mod reader;
pub mod tags;

use vstd::prelude::*;
use crate::ncm::{
    forced_ok,
    magic_ok,
    plain_decode,
    staged_error,
    success_shape,
    DumpOutput,
    NcmDump,
};
use crate::errors::{message_spec, NcmError};
use crate::formats::AudioFileType;

verus! {

/// Decodes one full NCM buffer and reports the outcome as a structured
/// result whose status field is "ok" or a failure message.
pub fn dump(data: Vec<u8>) -> (out: DumpOutput)
    ensures
        !magic_ok(data@) ==> out.data@.len() == 0 && out.metadata@ == ""@ && out.extension@ == ""@
            && out.result@ == message_spec(NcmError::NotNcmFormat),
        staged_error(data@) matches Some(e) ==> out.data@.len() == 0 && out.metadata@ == ""@
            && out.extension@ == ""@ && out.result@ == message_spec(e),
        forced_ok(data@) ==> out.result@ == "ok"@,
        out.result@ == "ok"@ ==> success_shape(data@, out.data@, out.extension@),
        out.result@ == "ok"@ || (out.data@.len() == 0 && out.metadata@ == ""@ && out.extension@
            == ""@),
        (match plain_decode(data@) {
            Some((dec, t)) => out.data@ == dec && out.metadata@ == ""@ && out.result@ == "ok"@
                && out.extension@ == (if t == AudioFileType::Flac {
                "flac"@
            } else {
                "mp3"@
            }),
            None => true,
        }),
{
    let mut d = NcmDump::new_from_memory(data);
    d.dump()
}

} // verus!
