//! The decode pipeline: magic-header validation, key-blob decryption,
//! keystream derivation, optional metadata and cover-image extraction, XOR
//! decryption of the audio payload with format detection, tag rewriting, and
//! the structured result handed back to the host.

use vstd::prelude::*;
use crate::crypto::{
    aes_ecb_decrypt,
    aes_ecb_decrypt_spec,
    base64_decode,
    base64_decode_spec,
    core_key,
    core_key_spec,
    modify_key,
    modify_key_spec,
    utf8_lossy,
    utf8_lossy_spec,
    xor_mask,
    xor_mask_spec,
};
use crate::errors::{message_spec, NcmError};
use crate::formats::{audio_type_spec, image_type_spec, Audio, AudioFileType, Image};
use crate::keystream::{
    build_key_box,
    decode_audio,
    decrypted_payload,
    key_box_spec,
    AUDIO_CHUNK,
};
use crate::metadata::{
    metadata_json_text,
    metadata_matches,
    metadata_text_ok,
    metadata_to_json,
    parse_metadata,
    Metadata,
};
use crate::reader::{le32_at, tail_from, Reader};
use crate::tags::{
    add_flac_metadata,
    add_mp3_metadata,
    flac_parse_ok,
    flac_safe,
    flac_trailing_spec,
    id3_source_ok,
};

verus! {

/// The 8 ASCII bytes `CTENFDAM` that open every container.
pub open spec fn magic_spec() -> Seq<u8> {
    seq![0x43u8, 0x54u8, 0x45u8, 0x4eu8, 0x46u8, 0x44u8, 0x41u8, 0x4du8]
}

pub open spec fn magic_ok(d: Seq<u8>) -> bool {
    d.len() >= 8 && d.subrange(0, 8) == magic_spec()
}

/// The key-blob stage at cursor `p`: the length-prefixed blob, XORed with
/// 0x64 and AES-decrypted with the fixed core key, and the cursor after it.
pub open spec fn key_stage(d: Seq<u8>, p: int) -> Result<(Seq<u8>, int), NcmError> {
    if p + 4 > d.len() {
        Err(NcmError::Truncated)
    } else {
        let n = le32_at(d, p);
        if p + 4 + n > d.len() {
            Err(NcmError::Truncated)
        } else {
            match aes_ecb_decrypt_spec(
                xor_mask_spec(d.subrange(p + 4, p + 4 + n), 0x64),
                core_key_spec(),
            ) {
                Some(v) => Ok((v, p + 4 + n)),
                None => Err(NcmError::CryptoError),
            }
        }
    }
}

/// The metadata stage at cursor `p`: a zero length means no metadata;
/// otherwise the blob is XORed with 0x63, its first 22 marker bytes dropped,
/// the rest base64-decoded and AES-decrypted with the fixed modify key, and
/// the JSON text follows the 6-byte `music:` marker.
pub open spec fn meta_stage(d: Seq<u8>, p: int) -> Result<(Option<Seq<char>>, int), NcmError> {
    if p + 4 > d.len() {
        Err(NcmError::Truncated)
    } else {
        let n = le32_at(d, p);
        if n == 0 {
            Ok((None, p + 4))
        } else if p + 4 + n > d.len() {
            Err(NcmError::Truncated)
        } else {
            let blob = xor_mask_spec(d.subrange(p + 4, p + 4 + n), 0x63);
            if blob.len() < 22 {
                Err(NcmError::MetadataParseError)
            } else {
                match base64_decode_spec(blob.skip(22)) {
                    None => Err(NcmError::MetadataParseError),
                    Some(b64) => match aes_ecb_decrypt_spec(b64, modify_key_spec()) {
                        None => Err(NcmError::CryptoError),
                        Some(dec) => if dec.len() < 6 {
                            Err(NcmError::MetadataParseError)
                        } else {
                            Ok((Some(utf8_lossy_spec(dec.skip(6))), p + 4 + n))
                        },
                    },
                }
            }
        }
    }
}

/// The cover-image stage at cursor `p`: a zero length means no image;
/// otherwise the image's format is read off its first 8 header bytes.
pub open spec fn image_stage(d: Seq<u8>, p: int) -> Result<
    (Option<(crate::formats::ImageFileType, Seq<u8>)>, int),
    NcmError,
> {
    if p + 4 > d.len() {
        Err(NcmError::Truncated)
    } else {
        let n = le32_at(d, p);
        if n == 0 {
            Ok((None, p + 4))
        } else if p + 4 + n > d.len() {
            Err(NcmError::Truncated)
        } else {
            let bytes = d.subrange(p + 4, p + 4 + n);
            if bytes.len() < 8 {
                Err(NcmError::UnknownImageFormat)
            } else {
                match image_type_spec(bytes) {
                    Some(t) => Ok((Some((t, bytes)), p + 4 + n)),
                    None => Err(NcmError::UnknownImageFormat),
                }
            }
        }
    }
}

/// The audio stage: everything from cursor `p` on is the payload, decrypted
/// chunk-wise with the keystream table; its first 4 decrypted bytes name the
/// real container format.
pub open spec fn audio_stage(d: Seq<u8>, p: int, table: Seq<u8>) -> Result<
    (AudioFileType, Seq<u8>),
    NcmError,
> {
    let payload = d.subrange(p, d.len() as int);
    if payload.len() < 4 {
        Err(NcmError::Truncated)
    } else {
        let dec = decrypted_payload(payload, table);
        Ok((audio_type_spec(dec), dec))
    }
}

/// The keystream table of the container: the magic header, the 2 reserved
/// bytes, and the key blob whose decryption must leave key material after the
/// 17-byte fixed prefix.
pub open spec fn table_stage(d: Seq<u8>) -> Result<(Seq<u8>, int), NcmError> {
    if !magic_ok(d) {
        Err(NcmError::NotNcmFormat)
    } else if d.len() < 10 {
        Err(NcmError::Truncated)
    } else {
        match key_stage(d, 10) {
            Err(e) => Err(e),
            Ok((raw, p1)) => if raw.len() < 18 {
                Err(NcmError::CryptoError)
            } else {
                Ok((key_box_spec(raw.skip(17)), p1))
            },
        }
    }
}

/// The error that the pipeline is bound to report on this container, where
/// the stages and the named parse outcomes determine one: `None` where
/// decoding may succeed or where the outcome turns on the rendering half of
/// the tag libraries.
pub open spec fn staged_error(d: Seq<u8>) -> Option<NcmError> {
    match table_stage(d) {
        Err(e) => Some(e),
        Ok((table, p1)) => match meta_stage(d, p1) {
            Err(e) => Some(e),
            Ok((opt, p2)) => if opt matches Some(j) && !metadata_text_ok(j) {
                Some(NcmError::MetadataParseError)
            } else if p2 + 9 > d.len() {
                Some(NcmError::Truncated)
            } else {
                match image_stage(d, p2 + 9) {
                    Err(e) => Some(e),
                    Ok((iopt, p3)) => match audio_stage(d, p3, table) {
                        Err(e) => Some(e),
                        Ok((t, dec)) => if opt is None && iopt is None {
                            None
                        } else if t == AudioFileType::Flac && !(flac_safe(dec) && flac_parse_ok(
                            dec,
                        )) {
                            Some(NcmError::TagParseError)
                        } else if t == AudioFileType::Mp3 && !id3_source_ok(dec) {
                            Some(NcmError::TagParseError)
                        } else {
                            None
                        },
                    },
                }
            },
        },
    }
}

/// The containers on which the pipeline is bound to succeed: every stage
/// succeeds, metadata (when present) parses, and either no tags are rewritten
/// or the decoded stream is FLAC and its tag block parses. (An MP3 rewrite
/// additionally turns on the tag encoder, which is not named here.)
pub open spec fn forced_ok(d: Seq<u8>) -> bool {
    match table_stage(d) {
        Err(_) => false,
        Ok((table, p1)) => match meta_stage(d, p1) {
            Err(_) => false,
            Ok((opt, p2)) => {
                &&& (match opt {
                    None => true,
                    Some(j) => metadata_text_ok(j),
                })
                &&& p2 + 9 <= d.len()
                &&& (match image_stage(d, p2 + 9) {
                    Err(_) => false,
                    Ok((iopt, p3)) => match audio_stage(d, p3, table) {
                        Err(_) => false,
                        Ok((t, dec)) => (opt is None && iopt is None) || (t
                            == AudioFileType::Flac && flac_safe(dec) && flac_parse_ok(dec)),
                    },
                })
            },
        },
    }
}

/// What every successful decode must return: all stages succeed, the
/// extension names the detected format, and the audio bytes are the decrypted
/// payload — unchanged where neither metadata nor image is present, and with
/// a rewritten tag block in front of the preserved audio bytes otherwise.
pub open spec fn success_shape(d: Seq<u8>, audio: Seq<u8>, ext: Seq<char>) -> bool {
    match table_stage(d) {
        Err(_) => false,
        Ok((table, p1)) => match meta_stage(d, p1) {
            Err(_) => false,
            Ok((opt, p2)) => p2 + 9 <= d.len() && match image_stage(d, p2 + 9) {
                Err(_) => false,
                Ok((iopt, p3)) => match audio_stage(d, p3, table) {
                    Err(_) => false,
                    Ok((t, dec)) => {
                        &&& ext == (if t == AudioFileType::Flac {
                            "flac"@
                        } else {
                            "mp3"@
                        })
                        &&& (opt is None && iopt is None ==> audio == dec)
                        &&& (!(opt is None && iopt is None) ==> (if t == AudioFileType::Flac {
                            exists|tb: Seq<u8>| audio == tb + flac_trailing_spec(dec)
                        } else {
                            exists|tb: Seq<u8>| audio == tb + dec
                        }))
                    },
                },
            },
        },
    }
}

/// The fully-determined decode of a container that carries no metadata and no
/// image: the decrypted audio payload and its detected format.
pub open spec fn plain_decode(d: Seq<u8>) -> Option<(Seq<u8>, AudioFileType)> {
    match table_stage(d) {
        Err(_) => None,
        Ok((table, p1)) => {
            if p1 + 4 > d.len() {
                None
            } else if le32_at(d, p1) != 0 {
                None
            } else if p1 + 13 > d.len() {
                None
            } else if p1 + 17 > d.len() {
                None
            } else if le32_at(d, p1 + 13) != 0 {
                None
            } else {
                match audio_stage(d, p1 + 17, table) {
                    Err(_) => None,
                    Ok((t, dec)) => Some((dec, t)),
                }
            }
        },
    }
}

/// The decoder that drives one container through the pipeline.
pub struct NcmDecoder {
    pub data: Reader,
}

impl NcmDecoder {
    pub fn new(data: Vec<u8>) -> (r: NcmDecoder)
        ensures
            r.data.pos == 0,
            r.data.data == data,
    {
        NcmDecoder { data: Reader::new(data) }
    }

    /// Checks the 8-byte magic header at the cursor.
    pub fn check_format(&mut self) -> (r: Result<(), NcmError>)
        ensures
            final(self).data.data == old(self).data.data,
            r is Ok <==> (old(self).data.pos + 8 <= old(self).data.data@.len() && old(
                self,
            ).data.data@.subrange(old(self).data.pos as int, old(self).data.pos + 8)
                == magic_spec()),
            r is Ok ==> final(self).data.pos == old(self).data.pos + 8,
            r matches Err(e) ==> e == NcmError::NotNcmFormat,
    {
        let b = match self.data.read_bytes(8) {
            Ok(b) => b,
            Err(_) => return Err(NcmError::NotNcmFormat),
        };
        if b[0] == 0x43 && b[1] == 0x54 && b[2] == 0x45 && b[3] == 0x4e && b[4] == 0x46 && b[5]
            == 0x44 && b[6] == 0x41 && b[7] == 0x4d {
            proof {
                assert(b@ =~= magic_spec());
            }
            Ok(())
        } else {
            proof {
                assert(b@.len() == 8);
                assert(b@ != magic_spec());
            }
            Err(NcmError::NotNcmFormat)
        }
    }

    /// Reads and decrypts the key blob at the cursor.
    pub fn read_aes_key(&mut self) -> (r: Result<Vec<u8>, NcmError>)
        ensures
            final(self).data.data == old(self).data.data,
            (match key_stage(old(self).data.data@, old(self).data.pos as int) {
                Ok((v, p2)) => r matches Ok(k) && k@ == v && final(self).data.pos == p2,
                Err(e) => r matches Err(e2) && e2 == e,
            }),
    {
        let key_len = self.data.read_le_u32()?;
        let mut key_data = self.data.read_bytes(key_len as usize)?;
        xor_mask(&mut key_data, 0x64);
        match aes_ecb_decrypt(key_data.as_slice(), core_key().as_slice()) {
            Some(v) => Ok(v),
            None => Err(NcmError::CryptoError),
        }
    }

    /// Reads, decrypts and parses the optional metadata blob at the cursor.
    pub fn read_metadata(&mut self) -> (r: Result<Option<Metadata>, NcmError>)
        ensures
            final(self).data.data == old(self).data.data,
            (match meta_stage(old(self).data.data@, old(self).data.pos as int) {
                Err(e) => r matches Err(e2) && e2 == e,
                Ok((opt, p2)) => (match opt {
                    None => r matches Ok(m) && m is None && final(self).data.pos == p2,
                    Some(json) => if metadata_text_ok(json) {
                        r matches Ok(m) && m matches Some(md) && metadata_matches(md, json)
                            && final(self).data.pos == p2
                    } else {
                        r matches Err(e2) && e2 == NcmError::MetadataParseError
                    },
                }),
            }),
    {
        let meta_len = self.data.read_le_u32()?;
        if meta_len == 0 {
            return Ok(None);
        }
        let mut blob = self.data.read_bytes(meta_len as usize)?;
        xor_mask(&mut blob, 0x63);
        if blob.len() < 22 {
            return Err(NcmError::MetadataParseError);
        }
        // The first 22 bytes are a fixed `163 key` marker; the rest is base64.
        let b64_part = tail_from(&blob, 22);
        proof {
            assert(b64_part@ =~= blob@.skip(22));
        }
        let decoded = match base64_decode(b64_part.as_slice()) {
            Some(v) => v,
            None => return Err(NcmError::MetadataParseError),
        };
        let decrypted = match aes_ecb_decrypt(decoded.as_slice(), modify_key().as_slice()) {
            Some(v) => v,
            None => return Err(NcmError::CryptoError),
        };
        if decrypted.len() < 6 {
            return Err(NcmError::MetadataParseError);
        }
        // The decrypted text opens with the fixed `music:` marker.
        let json_bytes = tail_from(&decrypted, 6);
        proof {
            assert(json_bytes@ =~= decrypted@.skip(6));
        }
        let json_text = utf8_lossy(json_bytes.as_slice());
        match parse_metadata(json_text.as_str()) {
            Some(m) => Ok(Some(m)),
            None => Err(NcmError::MetadataParseError),
        }
    }

    /// Reads the optional cover image blob at the cursor.
    pub fn read_image(&mut self) -> (r: Result<Option<Image>, NcmError>)
        ensures
            final(self).data.data == old(self).data.data,
            (match image_stage(old(self).data.data@, old(self).data.pos as int) {
                Err(e) => r matches Err(e2) && e2 == e,
                Ok((opt, p2)) => final(self).data.pos == p2 && (match opt {
                    None => r matches Ok(i) && i is None,
                    Some((t, bytes)) => r matches Ok(i) && i matches Some(img) && img.format == t
                        && img.data@ == bytes,
                }),
            }),
    {
        let image_len = self.data.read_le_u32()?;
        if image_len == 0 {
            return Ok(None);
        }
        let image_data = self.data.read_bytes(image_len as usize)?;
        if image_data.len() < 8 {
            return Err(NcmError::UnknownImageFormat);
        }
        let filetype = match crate::formats::ImageFileType::from_header_data(
            image_data.as_slice(),
        ) {
            Some(t) => t,
            None => return Err(NcmError::UnknownImageFormat),
        };
        Ok(Some(Image { format: filetype, data: image_data }))
    }

    /// Decrypts the remaining payload in fixed-size chunks and detects the
    /// decoded container's format from its first 4 bytes.
    pub fn read_audio(&mut self, key_box: &Vec<u8>) -> (r: Result<Audio, NcmError>)
        requires
            old(self).data.pos <= old(self).data.data@.len(),
            key_box@.len() == 256,
        ensures
            final(self).data.data == old(self).data.data,
            (match audio_stage(old(self).data.data@, old(self).data.pos as int, key_box@) {
                Ok((t, dec)) => r matches Ok(a) && a.format == t && a.data@ == dec
                    && final(self).data.pos == old(self).data.data@.len(),
                Err(e) => r matches Err(e2) && e2 == e
                    && final(self).data.pos == old(self).data.pos,
            }),
    {
        let payload = self.data.remaining();
        if payload.len() < 4 {
            return Err(NcmError::Truncated);
        }
        let ghost dec = decrypted_payload(payload@, key_box@);
        let plen: usize = payload.len();
        let mut out: Vec<u8> = Vec::new();
        let mut pos: usize = 0;
        while pos < plen
            invariant
                plen == payload@.len(),
                pos <= payload@.len(),
                pos % AUDIO_CHUNK == 0 || pos == payload@.len(),
                key_box@.len() == 256,
                dec == decrypted_payload(payload@, key_box@),
                out@ == dec.take(pos as int),
            decreases payload@.len() - pos,
        {
            let n: usize = if plen - pos >= AUDIO_CHUNK {
                AUDIO_CHUNK
            } else {
                plen - pos
            };
            let mut buf: Vec<u8> = Vec::new();
            let mut k: usize = 0;
            while k < n
                invariant
                    k <= n,
                    plen == payload@.len(),
                    pos + n <= plen,
                    buf@ == payload@.subrange(pos as int, pos + k),
                decreases n - k,
            {
                buf.push(payload[pos + k]);
                k += 1;
                assert(buf@ =~= payload@.subrange(pos as int, pos + k));
            }
            decode_audio(&mut buf, n, key_box.as_slice());
            proof {
                lemma_chunk_alignment(payload@, key_box@, pos as int, n as int, buf@);
            }
            out.append(&mut buf);
            pos += n;
            assert(out@ =~= dec.take(pos as int));
        }
        assert(out@ =~= dec);
        let format = AudioFileType::from_header_data(out.as_slice());
        // the payload is consumed: the cursor stands at end-of-buffer
        self.data.pos = self.data.data.len();
        Ok(Audio { format, data: out })
    }

    /// Runs the whole pipeline in order and returns the decoded audio bytes,
    /// the metadata JSON text ("" when metadata is absent), and the detected
    /// lowercase extension.
    #[verifier::rlimit(100)]
    pub fn dump(&mut self) -> (r: Result<(Vec<u8>, String, String), NcmError>)
        requires
            old(self).data.pos == 0,
        ensures
            (r matches Err(e) && e == NcmError::NotNcmFormat) <==> !magic_ok(old(self).data.data@),
            r matches Ok(t) ==> (t.2@ == "flac"@ || t.2@ == "mp3"@),
            staged_error(old(self).data.data@) matches Some(e) ==> (r matches Err(e2) && e2 == e),
            forced_ok(old(self).data.data@) ==> r is Ok,
            r matches Ok(t) ==> success_shape(old(self).data.data@, t.0@, t.2@),
            (match table_stage(old(self).data.data@) {
                Ok((table, p1)) => (match meta_stage(old(self).data.data@, p1) {
                    Ok((opt, p2)) => (match opt {
                        None => (r matches Ok(t) ==> t.1@ == ""@),
                        Some(json) => metadata_text_ok(json) ==> (r matches Ok(t)
                            ==> exists|md: Metadata|
                            #[trigger] metadata_matches(md, json) && t.1@ == metadata_json_text(
                                md,
                            )),
                    }),
                    Err(_) => true,
                }),
                Err(_) => true,
            }),
            (match plain_decode(old(self).data.data@) {
                Some((dec, t)) => r matches Ok(out) && out.0@ == dec && out.1@ == ""@ && out.2@
                    == (if t == AudioFileType::Flac {
                    "flac"@
                } else {
                    "mp3"@
                }),
                None => true,
            }),
    {
        self.check_format()?;
        self.data.skip(2)?;
        let raw_key = self.read_aes_key()?;
        if raw_key.len() < 18 {
            return Err(NcmError::CryptoError);
        }
        // The first 17 decrypted bytes are a fixed prefix; the rest is the
        // key material.
        let key_material = tail_from(&raw_key, 17);
        proof {
            assert(key_material@ =~= raw_key@.skip(17));
        }
        let key_box = build_key_box(key_material.as_slice());
        let metadata = self.read_metadata()?;
        match self.data.skip(9) {
            Ok(_) => {},
            Err(e) => {
                let len_now: usize = self.data.data.len();
                assert(old(self).data.data@.len() == len_now as int);
                return Err(e);
            },
        }
        let image = self.read_image()?;
        let mut audio = self.read_audio(&key_box)?;
        let extension: String;
        match audio.format {
            AudioFileType::Flac => {
                add_flac_metadata(&mut audio, &image, &metadata)?;
                extension = "flac".to_owned();
            },
            AudioFileType::Mp3 => {
                add_mp3_metadata(&mut audio, &image, &metadata)?;
                extension = "mp3".to_owned();
            },
        }
        let meta_json: String = match &metadata {
            Some(m) => match metadata_to_json(m) {
                Some(s) => s,
                None => return Err(NcmError::MetadataParseError),
            },
            None => "".to_owned(),
        };
        Ok((audio.data, meta_json, extension))
    }
}

/// A decrypted chunk starting at a chunk-aligned payload position matches the
/// whole-payload decryption on that range.
proof fn lemma_chunk_alignment(p: Seq<u8>, t: Seq<u8>, pos: int, n: int, buf: Seq<u8>)
    requires
        t.len() == 256,
        0 <= pos,
        0 < n <= AUDIO_CHUNK as int,
        pos % (AUDIO_CHUNK as int) == 0,
        pos + n <= p.len(),
        buf.len() == n,
        forall|k: int|
            0 <= k < n ==> buf[k] == (p.subrange(pos, pos + n)[k] ^ crate::keystream::keystream_at(
                t,
                k,
            )),
    ensures
        forall|k: int|
            0 <= k < n ==> buf[k] == decrypted_payload(p, t)[pos + k],
{
    let c = AUDIO_CHUNK as int;
    assert forall|k: int| 0 <= k < n implies buf[k] == decrypted_payload(p, t)[pos + k] by {
        assert((pos + k) % c == k) by {
            vstd::arithmetic::div_mod::lemma_fundamental_div_mod(pos, c);
            assert(pos == c * (pos / c));
            vstd::arithmetic::div_mod::lemma_mod_multiples_vanish(pos / c, k, c);
            vstd::arithmetic::div_mod::lemma_small_mod(k as nat, c as nat);
        }
        assert(p.subrange(pos, pos + n)[k] == p[pos + k]);
    }
}

/// The host-facing decoder: one instance per decode call.
pub struct NcmDump {
    pub inner: NcmDecoder,
}

impl NcmDump {
    pub fn new_from_memory(data: Vec<u8>) -> (r: NcmDump)
        ensures
            r.inner.data.pos == 0,
            r.inner.data.data == data,
    {
        NcmDump { inner: NcmDecoder::new(data) }
    }

    /// Decodes and reports the outcome as a structured result; failures come
    /// back as a message in the status field, never as partial output.
    pub fn dump(&mut self) -> (out: DumpOutput)
        requires
            old(self).inner.data.pos == 0,
        ensures
            !magic_ok(old(self).inner.data.data@) ==> out.data@.len() == 0 && out.metadata@ == ""@
                && out.extension@ == ""@ && out.result@ == message_spec(NcmError::NotNcmFormat),
            staged_error(old(self).inner.data.data@) matches Some(e) ==> out.data@.len() == 0
                && out.metadata@ == ""@ && out.extension@ == ""@ && out.result@ == message_spec(e),
            forced_ok(old(self).inner.data.data@) ==> out.result@ == "ok"@,
            (match table_stage(old(self).inner.data.data@) {
                Ok((table, p1)) => (match meta_stage(old(self).inner.data.data@, p1) {
                    Ok((opt, p2)) => (match opt {
                        None => true,
                        Some(json) => (metadata_text_ok(json) && out.result@ == "ok"@)
                            ==> exists|md: Metadata|
                            #[trigger] metadata_matches(md, json) && out.metadata@
                                == metadata_json_text(md),
                    }),
                    Err(_) => true,
                }),
                Err(_) => true,
            }),
            out.result@ == "ok"@ ==> success_shape(
                old(self).inner.data.data@,
                out.data@,
                out.extension@,
            ),
            out.result@ == "ok"@ || (out.data@.len() == 0 && out.metadata@ == ""@
                && out.extension@ == ""@),
            (match plain_decode(old(self).inner.data.data@) {
                Some((dec, t)) => out.data@ == dec && out.metadata@ == ""@ && out.result@ == "ok"@
                    && out.extension@ == (if t == AudioFileType::Flac {
                    "flac"@
                } else {
                    "mp3"@
                }),
                None => true,
            }),
    {
        match self.inner.dump() {
            Ok((data, metadata, extension)) => DumpOutput::new(
                data,
                metadata,
                "ok".to_owned(),
                extension,
            ),
            Err(err) => {
                proof {
                    reveal_strlit("ok");
                    reveal_strlit("This file is not in ncm format");
                    reveal_strlit("unexpected end of input");
                    reveal_strlit("AES decryption failed");
                    reveal_strlit("malformed metadata");
                    reveal_strlit("unknown image mime type");
                    reveal_strlit("malformed audio tags");
                    assert("ok"@.len() == 2);
                    assert("This file is not in ncm format"@.len() != 2);
                    assert("unexpected end of input"@.len() != 2);
                    assert("AES decryption failed"@.len() != 2);
                    assert("malformed metadata"@.len() != 2);
                    assert("unknown image mime type"@.len() != 2);
                    assert("malformed audio tags"@.len() != 2);
                    assert(message_spec(err) != "ok"@);
                }
                DumpOutput::new(Vec::new(), "".to_owned(), err.message().to_owned(), "".to_owned())
            },
        }
    }
}

/// The structured result of one decode call.
pub struct DumpOutput {
    pub data: Vec<u8>,
    pub metadata: String,
    pub extension: String,
    pub result: String,
}

impl DumpOutput {
    pub fn new(data: Vec<u8>, metadata: String, result: String, extension: String) -> (r:
        DumpOutput)
        ensures
            r.data == data,
            r.metadata == metadata,
            r.extension == extension,
            r.result == result,
    {
        DumpOutput { data, metadata, extension, result }
    }

    /// The decoded audio bytes.
    pub fn data(self) -> (r: Vec<u8>)
        ensures
            r == self.data,
    {
        self.data
    }

    /// The metadata JSON text ("" when metadata was absent or on failure).
    pub fn metadata(&self) -> (r: String)
        ensures
            r == self.metadata,
    {
        self.metadata.clone()
    }

    /// The detected lowercase extension ("" on failure).
    pub fn extension(&self) -> (r: String)
        ensures
            r == self.extension,
    {
        self.extension.clone()
    }

    /// "ok", or the failure message.
    pub fn result(&self) -> (r: String)
        ensures
            r == self.result,
    {
        self.result.clone()
    }
}

} // verus!
