//! End-to-end and unit tests for the NCM decode pipeline.

use ncmdump::errors::NcmError;
use ncmdump::formats::{AudioFileType, ImageFileType};
use ncmdump::keystream::{build_key_box, decode_audio};
use ncmdump::ncm::NcmDump;

use aes::Aes128;
use block_modes::block_padding::Pkcs7;
use block_modes::{BlockMode, Ecb};

const CORE_KEY: [u8; 16] = [
    0x68, 0x7A, 0x48, 0x52, 0x41, 0x6D, 0x73, 0x6F, 0x35, 0x6B, 0x49, 0x6E, 0x62, 0x61, 0x78,
    0x57,
];

const MODIFY_KEY: [u8; 16] = [
    0x23, 0x31, 0x34, 0x6C, 0x6A, 0x6B, 0x5F, 0x21, 0x5C, 0x5D, 0x26, 0x30, 0x55, 0x3C, 0x27,
    0x28,
];

fn aes_encrypt(data: &[u8], key: &[u8; 16]) -> Vec<u8> {
    let cipher = Ecb::<Aes128, Pkcs7>::new_var(key, &[]).unwrap();
    cipher.encrypt_vec(data)
}

/// Builds the encrypted key blob around the given key material.
fn key_blob(key_material: &[u8]) -> Vec<u8> {
    // 17-byte fixed prefix that the decoder discards.
    let mut plain = b"neteasecloudmusic".to_vec();
    assert_eq!(plain.len(), 17);
    plain.extend_from_slice(key_material);
    let mut enc = aes_encrypt(&plain, &CORE_KEY);
    for b in enc.iter_mut() {
        *b ^= 0x64;
    }
    enc
}

/// Builds the encrypted metadata blob around the given JSON text.
fn meta_blob(json: &str) -> Vec<u8> {
    let mut plain = b"music:".to_vec();
    plain.extend_from_slice(json.as_bytes());
    let enc = aes_encrypt(&plain, &MODIFY_KEY);
    let b64 = base64::encode(&enc);
    let mut blob = b"163 key(Don't modify):".to_vec();
    assert_eq!(blob.len(), 22);
    blob.extend_from_slice(b64.as_bytes());
    for b in blob.iter_mut() {
        *b ^= 0x63;
    }
    blob
}

/// XOR-encrypts an audio payload with the keystream of the given material
/// (the cipher is self-inverse, so encryption is one decode pass per chunk).
fn encrypt_payload(plain: &[u8], key_material: &[u8]) -> Vec<u8> {
    let table = build_key_box(key_material);
    let mut out = Vec::new();
    for chunk in plain.chunks(0x8000) {
        let mut buf = chunk.to_vec();
        let n = buf.len();
        decode_audio(&mut buf, n, &table);
        out.extend_from_slice(&buf);
    }
    out
}

/// Assembles a whole NCM container.
fn build_ncm(key_material: &[u8], meta_json: Option<&str>, image: &[u8], audio_plain: &[u8]) -> Vec<u8> {
    let mut buf = b"CTENFDAM".to_vec();
    buf.extend_from_slice(&[0u8, 0u8]);
    let kb = key_blob(key_material);
    buf.extend_from_slice(&(kb.len() as u32).to_le_bytes());
    buf.extend_from_slice(&kb);
    match meta_json {
        Some(j) => {
            let mb = meta_blob(j);
            buf.extend_from_slice(&(mb.len() as u32).to_le_bytes());
            buf.extend_from_slice(&mb);
        }
        None => buf.extend_from_slice(&0u32.to_le_bytes()),
    }
    buf.extend_from_slice(&[0u8; 9]);
    buf.extend_from_slice(&(image.len() as u32).to_le_bytes());
    buf.extend_from_slice(image);
    buf.extend_from_slice(&encrypt_payload(audio_plain, key_material));
    buf
}

#[test]
fn short_input_is_not_ncm() {
    let mut d = NcmDump::new_from_memory(vec![1, 2, 3]);
    let out = d.dump();
    assert_eq!(out.result(), "This file is not in ncm format");
    assert_eq!(out.metadata(), "");
    assert_eq!(out.extension(), "");
    assert_eq!(out.data(), Vec::<u8>::new());
}

#[test]
fn wrong_magic_is_not_ncm() {
    let mut buf = b"CTENFDAX".to_vec();
    buf.extend_from_slice(&[0u8; 64]);
    let out = ncmdump::dump(buf);
    assert_eq!(out.result(), "This file is not in ncm format");
    assert_eq!(out.extension(), "");
    assert!(out.data().is_empty());
}

#[test]
fn truncated_after_magic() {
    let mut buf = b"CTENFDAM".to_vec();
    buf.push(0);
    let out = ncmdump::dump(buf);
    assert_eq!(out.result(), "unexpected end of input");
    assert!(out.data().is_empty());
}

#[test]
fn bad_key_blob_is_crypto_error() {
    let mut buf = b"CTENFDAM".to_vec();
    buf.extend_from_slice(&[0u8, 0u8]);
    buf.extend_from_slice(&4u32.to_le_bytes());
    buf.extend_from_slice(&[9, 9, 9, 9]);
    let out = ncmdump::dump(buf);
    assert_eq!(out.result(), "AES decryption failed");
}

#[test]
fn short_metadata_blob_is_metadata_error() {
    let mut buf = b"CTENFDAM".to_vec();
    buf.extend_from_slice(&[0u8, 0u8]);
    let kb = key_blob(b"0123456789abcdef");
    buf.extend_from_slice(&(kb.len() as u32).to_le_bytes());
    buf.extend_from_slice(&kb);
    buf.extend_from_slice(&3u32.to_le_bytes());
    buf.extend_from_slice(&[1, 2, 3]);
    let out = ncmdump::dump(buf);
    assert_eq!(out.result(), "malformed metadata");
}

#[test]
fn unknown_image_format_fails() {
    let mut buf = b"CTENFDAM".to_vec();
    buf.extend_from_slice(&[0u8, 0u8]);
    let kb = key_blob(b"0123456789abcdef");
    buf.extend_from_slice(&(kb.len() as u32).to_le_bytes());
    buf.extend_from_slice(&kb);
    buf.extend_from_slice(&0u32.to_le_bytes());
    buf.extend_from_slice(&[0u8; 9]);
    buf.extend_from_slice(&8u32.to_le_bytes());
    buf.extend_from_slice(&[1, 2, 3, 4, 5, 6, 7, 8]);
    let out = ncmdump::dump(buf);
    assert_eq!(out.result(), "unknown image mime type");
}

#[test]
fn truncated_payload_fails() {
    let ncm = build_ncm(b"0123456789abcdef", None, &[], b"ab");
    let out = ncmdump::dump(ncm);
    assert_eq!(out.result(), "unexpected end of input");
}

#[test]
fn keystream_matches_reference() {
    // Independent reference implementation of the key scheduling.
    let key = b"hello keystream!";
    let mut expected: Vec<u8> = (0..=255u8).collect();
    let mut last: u8 = 0;
    let mut off = 0usize;
    for i in 0..256usize {
        let c = ((expected[i] as usize + last as usize + key[off] as usize) % 256) as u8;
        off += 1;
        if off >= key.len() {
            off = 0;
        }
        expected.swap(i, c as usize);
        last = c;
    }
    let got = build_key_box(key);
    assert_eq!(got, expected);

    // Deterministic: a second run yields the same table.
    assert_eq!(build_key_box(key), got);

    // The table is a permutation of 0..256.
    let mut sorted = got.clone();
    sorted.sort_unstable();
    let identity: Vec<u8> = (0..=255u8).collect();
    assert_eq!(sorted, identity);
}

#[test]
fn decode_audio_is_self_inverse() {
    let table = build_key_box(b"round trip key");
    let original: Vec<u8> = (0..255u8).cycle().take(1000).collect();
    let mut buf = original.clone();
    let n = buf.len();
    decode_audio(&mut buf, n, &table);
    assert_ne!(buf, original);
    decode_audio(&mut buf, n, &table);
    assert_eq!(buf, original);
}

#[test]
fn audio_format_detection() {
    assert_eq!(
        AudioFileType::from_header_data(&[0x66, 0x4C, 0x61, 0x43]),
        AudioFileType::Flac
    );
    assert_eq!(
        AudioFileType::from_header_data(&[0x49, 0x44, 0x33, 0x04]),
        AudioFileType::Mp3
    );
    assert_eq!(
        AudioFileType::from_header_data(&[0x49, 0x44, 0x33, 0xFF]),
        AudioFileType::Mp3
    );
    // Unrecognized headers default to MP3.
    assert_eq!(
        AudioFileType::from_header_data(&[0, 1, 2, 3]),
        AudioFileType::Mp3
    );
}

#[test]
fn image_format_detection() {
    assert_eq!(
        ImageFileType::from_header_data(&[137, 80, 78, 71, 13, 10, 26, 10]),
        Some(ImageFileType::Png)
    );
    assert_eq!(
        ImageFileType::from_header_data(&[0xFF, 0xD8, 0xFF, 0xE0, 0, 1, 2, 3]),
        Some(ImageFileType::Jpeg)
    );
    assert_eq!(
        ImageFileType::from_header_data(&[71, 73, 70, 56, 57, 97, 0, 0]),
        Some(ImageFileType::Gif)
    );
    assert_eq!(ImageFileType::from_header_data(&[0; 8]), None);
    assert_eq!(ImageFileType::Png.mime_type(), "image/png");
    assert_eq!(ImageFileType::Jpeg.mime_type(), "image/jpeg");
    assert_eq!(ImageFileType::Gif.mime_type(), "image/gif");
}

#[test]
fn error_messages() {
    assert_eq!(NcmError::NotNcmFormat.message(), "This file is not in ncm format");
    assert_eq!(NcmError::Truncated.message(), "unexpected end of input");
    assert_eq!(NcmError::CryptoError.message(), "AES decryption failed");
    assert_eq!(NcmError::MetadataParseError.message(), "malformed metadata");
    assert_eq!(NcmError::UnknownImageFormat.message(), "unknown image mime type");
    assert_eq!(NcmError::TagParseError.message(), "malformed audio tags");
}

#[test]
fn end_to_end_plain_flac() {
    // A payload whose decrypted bytes begin with fLaC, no metadata, no image.
    let mut audio = b"fLaC".to_vec();
    audio.extend_from_slice(&[0xAA; 100]);
    let ncm = build_ncm(b"some key material", None, &[], &audio);
    let mut d = NcmDump::new_from_memory(ncm);
    let out = d.dump();
    assert_eq!(out.result(), "ok");
    assert_eq!(out.extension(), "flac");
    assert_eq!(out.metadata(), "");
    assert_eq!(out.data(), audio);
}

#[test]
fn end_to_end_plain_mp3_fallback() {
    // An unrecognized decrypted header defaults to MP3; with no metadata and
    // no image the payload is returned unchanged.
    let audio = vec![0x01u8; 50];
    let ncm = build_ncm(b"another key", None, &[], &audio);
    let out = ncmdump::dump(ncm);
    assert_eq!(out.result(), "ok");
    assert_eq!(out.extension(), "mp3");
    assert_eq!(out.metadata(), "");
    assert_eq!(out.data(), audio);
}

#[test]
fn end_to_end_large_payload_spans_chunks() {
    // More than one 32 KiB chunk, exercising the per-chunk index restart.
    let mut audio = b"fLaC".to_vec();
    audio.extend((0..70000u32).map(|i| (i % 251) as u8));
    let ncm = build_ncm(b"chunk key", None, &[], &audio);
    let out = ncmdump::dump(ncm);
    assert_eq!(out.result(), "ok");
    assert_eq!(out.extension(), "flac");
    assert_eq!(out.data(), audio);
}

#[test]
fn parse_and_reserialize_metadata() {
    let json = "{\"format\":\"flac\",\"musicId\":1,\"musicName\":\"A\",\"artist\":[[\"C\",0]],\"album\":\"B\",\"albumId\":2,\"albumPicDocId\":3,\"albumPic\":\"p\",\"mvId\":4,\"flag\":5,\"bitrate\":6,\"duration\":7,\"transNames\":[\"t\"]}";
    let m = ncmdump::metadata::parse_metadata(json).unwrap();
    assert_eq!(m.format, "flac");
    assert_eq!(m.music_id, 1);
    assert_eq!(m.music_name, "A");
    assert_eq!(m.artist, vec![("C".to_string(), 0u64)]);
    assert_eq!(m.album, "B");
    assert_eq!(m.album_id, 2);
    assert_eq!(m.album_pic_doc_id, 3);
    assert_eq!(m.album_pic, "p");
    assert_eq!(m.mv_id, 4);
    assert_eq!(m.flag, 5);
    assert_eq!(m.bitrate, 6);
    assert_eq!(m.duration, 7);
    assert_eq!(m.trans_names, vec!["t".to_string()]);
    let back = ncmdump::metadata::metadata_to_json(&m).unwrap();
    assert_eq!(back, json);
}

#[test]
fn end_to_end_with_metadata_and_image() {
    let json = "{\"format\":\"flac\",\"musicId\":1,\"musicName\":\"A\",\"artist\":[[\"C\",0]],\"album\":\"B\",\"albumId\":2,\"albumPicDocId\":3,\"albumPic\":\"p\",\"mvId\":4,\"flag\":5,\"bitrate\":6,\"duration\":7,\"transNames\":[\"t\"]}";
    let frames = [0xDEu8, 0xAD, 0xBE, 0xEF];
    let mut audio_plain = b"fLaC".to_vec();
    audio_plain.push(0x80);
    audio_plain.extend_from_slice(&[0, 0, 34]);
    audio_plain.extend_from_slice(&[0u8; 34]);
    audio_plain.extend_from_slice(&frames);
    let png = [137u8, 80, 78, 71, 13, 10, 26, 10];
    let ncm = build_ncm(b"meta key material", Some(json), &png, &audio_plain);
    let out = ncmdump::dump(ncm);
    assert_eq!(out.result(), "ok");
    assert_eq!(out.extension(), "flac");
    assert_eq!(out.metadata(), json);
    let data = out.data();

    let mut cursor = std::io::Cursor::new(&data);
    let tag = metaflac::Tag::read_from(&mut cursor).unwrap();
    let comments = tag.vorbis_comments().unwrap();
    assert_eq!(comments.title(), Some(&vec!["A".to_string()]));
    assert_eq!(comments.album(), Some(&vec!["B".to_string()]));
    assert_eq!(comments.artist(), Some(&vec!["C".to_string()]));
    let pics: Vec<_> = tag.pictures().collect();
    assert_eq!(pics.len(), 1);
    assert_eq!(pics[0].mime_type, "image/png");
    let mut cursor = std::io::Cursor::new(&data);
    let trailing = metaflac::Tag::skip_metadata(&mut cursor);
    assert_eq!(trailing, frames.to_vec());
}

#[test]
fn end_to_end_malformed_flac_with_metadata_fails() {
    let json = "{\"format\":\"flac\",\"musicId\":1,\"musicName\":\"A\",\"artist\":[[\"C\",0]],\"album\":\"B\",\"albumId\":2,\"albumPicDocId\":3,\"albumPic\":\"p\",\"mvId\":4,\"flag\":5,\"bitrate\":6,\"duration\":7,\"transNames\":[]}";
    // Starts with fLaC so it is classified FLAC, but its block structure is
    // malformed, so rewriting the tags must fail.
    let audio_plain = b"fLaC\x00\x00".to_vec();
    let ncm = build_ncm(b"meta key material", Some(json), &[], &audio_plain);
    let out = ncmdump::dump(ncm);
    assert_eq!(out.result(), "malformed audio tags");
    assert!(out.data().is_empty());
}

#[test]
fn metadata_with_unicode_and_wide_doc_id() {
    // A title outside ASCII exercises the lossy UTF-8 decoding of the blob,
    // and a doc id beyond the u64 range exercises the wide number path.
    let json = "{\"format\":\"flac\",\"musicId\":1,\"musicName\":\"Tit\u{00e9}l \u{97f3}\",\"artist\":[[\"C\",0]],\"album\":\"B\",\"albumId\":2,\"albumPicDocId\":340282366920938463463374607431768211455,\"albumPic\":\"p\",\"mvId\":4,\"flag\":5,\"bitrate\":6,\"duration\":7,\"transNames\":[]}";
    let m = ncmdump::metadata::parse_metadata(json).unwrap();
    assert_eq!(m.music_name, "Tit\u{00e9}l \u{97f3}");
    assert_eq!(m.album_pic_doc_id, u128::MAX);
    let back = ncmdump::metadata::metadata_to_json(&m).unwrap();
    assert_eq!(back, json);

    // The same metadata carried through the whole pipeline.
    let audio_plain = vec![0x11u8; 40];
    let ncm = build_ncm(b"unicode key", Some(json), &[], &audio_plain);
    let out = ncmdump::dump(ncm);
    assert_eq!(out.result(), "ok");
    assert_eq!(out.extension(), "mp3");
    assert_eq!(out.metadata(), json);
}

#[test]
fn keystream_single_byte_key_wraps() {
    let key = [0x5Au8];
    let mut expected: Vec<u8> = (0..=255u8).collect();
    let mut last: u8 = 0;
    for i in 0..256usize {
        let c = ((expected[i] as usize + last as usize + key[0] as usize) % 256) as u8;
        expected.swap(i, c as usize);
        last = c;
    }
    assert_eq!(build_key_box(&key), expected);
}

#[test]
fn reader_skip_moves_past_end_and_rejects_before_start() {
    let mut r = ncmdump::reader::Reader::new(vec![0u8; 10]);
    assert!(r.skip(20).is_ok());
    assert_eq!(r.pos, 20);
    // a read past the end fails; the position itself may exceed the buffer
    assert!(r.read_le_u32().is_err());
    assert!(r.skip(-15).is_ok());
    assert_eq!(r.pos, 5);
    assert!(r.skip(-6).is_err());
    assert_eq!(r.pos, 5);
}

#[test]
fn metadata_missing_field_is_rejected() {
    let json = "{\"format\":\"flac\",\"musicId\":1}";
    assert!(ncmdump::metadata::parse_metadata(json).is_none());
}
