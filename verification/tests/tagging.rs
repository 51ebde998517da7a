//! Tests of the tag-rewriting rules: identity on absent data, Vorbis comment
//! and ID3 frame round trips, and preservation of the trailing audio frames.

use id3::TagLike;
use ncmdump::formats::{Audio, AudioFileType, Image, ImageFileType};
use ncmdump::metadata::Metadata;
use ncmdump::tags::{add_flac_metadata, add_mp3_metadata, join_artists};

/// A minimal well-formed FLAC stream: the fLaC marker, one last STREAMINFO
/// block of 34 zero bytes, then the given frame bytes.
fn minimal_flac(frames: &[u8]) -> Vec<u8> {
    let mut v = b"fLaC".to_vec();
    v.push(0x80);
    v.extend_from_slice(&[0, 0, 34]);
    v.extend_from_slice(&[0u8; 34]);
    v.extend_from_slice(frames);
    v
}

fn sample_metadata() -> Metadata {
    Metadata {
        format: "flac".to_string(),
        music_id: 1,
        music_name: "A".to_string(),
        artist: vec![("C".to_string(), 0)],
        album: "B".to_string(),
        album_id: 2,
        album_pic_doc_id: 3,
        album_pic: "p".to_string(),
        mv_id: 4,
        flag: 5,
        bitrate: 6,
        duration: 7,
        trans_names: vec![],
    }
}

#[test]
fn flac_tags_noop_on_absent_data() {
    let bytes = minimal_flac(&[1, 2, 3]);
    let mut audio = Audio { format: AudioFileType::Flac, data: bytes.clone() };
    let r = add_flac_metadata(&mut audio, &None, &None);
    assert!(r.is_ok());
    assert_eq!(audio.data, bytes);
}

#[test]
fn mp3_tags_noop_on_absent_data() {
    let bytes = vec![0xFFu8, 0xFB, 1, 2, 3];
    let mut audio = Audio { format: AudioFileType::Mp3, data: bytes.clone() };
    let r = add_mp3_metadata(&mut audio, &None, &None);
    assert!(r.is_ok());
    assert_eq!(audio.data, bytes);
}

#[test]
fn flac_tags_write_comments_and_preserve_frames() {
    let frames = [0xDEu8, 0xAD, 0xBE, 0xEF, 0x42];
    let bytes = minimal_flac(&frames);
    let mut audio = Audio { format: AudioFileType::Flac, data: bytes };
    let r = add_flac_metadata(&mut audio, &None, &Some(sample_metadata()));
    assert!(r.is_ok());

    let mut cursor = std::io::Cursor::new(&audio.data);
    let tag = metaflac::Tag::read_from(&mut cursor).unwrap();
    let comments = tag.vorbis_comments().unwrap();
    assert_eq!(comments.title(), Some(&vec!["A".to_string()]));
    assert_eq!(comments.album(), Some(&vec!["B".to_string()]));
    assert_eq!(comments.artist(), Some(&vec!["C".to_string()]));

    let mut cursor = std::io::Cursor::new(&audio.data);
    let trailing = metaflac::Tag::skip_metadata(&mut cursor);
    assert_eq!(trailing, frames.to_vec());
}

#[test]
fn flac_tags_attach_picture() {
    let bytes = minimal_flac(&[7, 7, 7]);
    let mut audio = Audio { format: AudioFileType::Flac, data: bytes };
    let image = Image { format: ImageFileType::Png, data: vec![137, 80, 78, 71, 13, 10, 26, 10] };
    let r = add_flac_metadata(&mut audio, &Some(image), &None);
    assert!(r.is_ok());

    let mut cursor = std::io::Cursor::new(&audio.data);
    let tag = metaflac::Tag::read_from(&mut cursor).unwrap();
    let pics: Vec<_> = tag.pictures().collect();
    assert_eq!(pics.len(), 1);
    assert_eq!(pics[0].mime_type, "image/png");
    assert_eq!(pics[0].data, vec![137, 80, 78, 71, 13, 10, 26, 10]);
}

#[test]
fn flac_tags_fail_on_malformed_stream() {
    let mut audio = Audio { format: AudioFileType::Flac, data: vec![1, 2, 3, 4] };
    let before = audio.data.clone();
    let r = add_flac_metadata(&mut audio, &None, &Some(sample_metadata()));
    assert!(r.is_err());
    assert_eq!(audio.data, before);
}

#[test]
fn mp3_tags_write_frames_and_keep_buffer() {
    let bytes = vec![0xFFu8, 0xFB, 9, 8, 7, 6];
    let mut meta = sample_metadata();
    meta.artist = vec![("C".to_string(), 0), ("D".to_string(), 1)];
    let mut audio = Audio { format: AudioFileType::Mp3, data: bytes.clone() };
    let r = add_mp3_metadata(&mut audio, &None, &Some(meta));
    assert!(r.is_ok());

    // The original buffer is kept, with the rendered tag prefixed onto it.
    assert!(audio.data.len() > bytes.len());
    assert_eq!(&audio.data[audio.data.len() - bytes.len()..], &bytes[..]);

    let tag = id3::Tag::read_from2(std::io::Cursor::new(&audio.data)).unwrap();
    assert_eq!(tag.title(), Some("A"));
    assert_eq!(tag.album(), Some("B"));
    assert_eq!(tag.artist(), Some("C/D"));
}

#[test]
fn flac_tags_reject_overdeclared_streaminfo_without_panic() {
    // A StreamInfo block that declares only 2 content bytes: metaflac's
    // parser would index past them, so the rewriter must reject the stream
    // cleanly instead.
    let mut bytes = b"fLaC".to_vec();
    bytes.push(0x80);
    bytes.extend_from_slice(&[0, 0, 2]);
    bytes.extend_from_slice(&[0, 0]);
    bytes.extend_from_slice(&[1, 2, 3]);
    let mut audio = Audio { format: AudioFileType::Flac, data: bytes.clone() };
    let r = add_flac_metadata(&mut audio, &None, &Some(sample_metadata()));
    assert!(r.is_err());
    assert_eq!(audio.data, bytes);
}

#[test]
fn flac_tags_reject_truncated_block_content() {
    // The block declares 34 content bytes but fewer remain.
    let mut bytes = b"fLaC".to_vec();
    bytes.push(0x80);
    bytes.extend_from_slice(&[0, 0, 34]);
    bytes.extend_from_slice(&[0u8; 10]);
    let mut audio = Audio { format: AudioFileType::Flac, data: bytes.clone() };
    let r = add_flac_metadata(&mut audio, &None, &Some(sample_metadata()));
    assert!(r.is_err());
    assert_eq!(audio.data, bytes);
}

#[test]
fn flac_tags_reject_comment_without_separator() {
    // A Vorbis comment block whose one comment has no `=`: metaflac would
    // index past the missing separator.
    let mut comment: Vec<u8> = Vec::new();
    comment.extend_from_slice(&4u32.to_le_bytes());
    comment.extend_from_slice(b"vend");
    comment.extend_from_slice(&1u32.to_le_bytes());
    comment.extend_from_slice(&5u32.to_le_bytes());
    comment.extend_from_slice(b"title");
    let mut bytes = b"fLaC".to_vec();
    bytes.push(0x04);
    bytes.extend_from_slice(&[0, 0, 34]);
    bytes.extend_from_slice(&[0u8; 34]);
    bytes.push(0x80 | 4);
    bytes.extend_from_slice(&[0, 0, comment.len() as u8]);
    bytes.extend_from_slice(&comment);
    let mut audio = Audio { format: AudioFileType::Flac, data: bytes.clone() };
    let r = add_flac_metadata(&mut audio, &None, &Some(sample_metadata()));
    assert!(r.is_err());
    assert_eq!(audio.data, bytes);
}

#[test]
fn mp3_tags_rewrite_existing_plain_tag() {
    // An empty ID3v2.4 tag opens the stream; the rewriter parses it, sets
    // the frames and prefixes the re-serialized tag onto the whole buffer.
    let mut bytes = b"ID3\x04\x00\x00\x00\x00\x00\x00".to_vec();
    bytes.extend_from_slice(&[0xFFu8, 0xFB, 1, 2, 3]);
    let mut audio = Audio { format: AudioFileType::Mp3, data: bytes.clone() };
    let r = add_mp3_metadata(&mut audio, &None, &Some(sample_metadata()));
    assert!(r.is_ok());
    assert_eq!(&audio.data[audio.data.len() - bytes.len()..], &bytes[..]);
    let tag = id3::Tag::read_from2(std::io::Cursor::new(&audio.data)).unwrap();
    assert_eq!(tag.title(), Some("A"));
}

#[test]
fn mp3_tags_reject_oversized_image() {
    // A cover image past the encoder's size budget is rejected instead of
    // risking the tag-size assertion.
    let bytes = vec![0xFFu8, 0xFB, 9];
    let image = Image { format: ImageFileType::Png, data: vec![0u8; 0x4000001] };
    let mut audio = Audio { format: AudioFileType::Mp3, data: bytes.clone() };
    let r = add_mp3_metadata(&mut audio, &Some(image), &None);
    assert!(r.is_err());
    assert_eq!(audio.data, bytes);
}

#[test]
fn join_artists_uses_slash_separator() {
    let names = vec![
        ("C".to_string(), 0u64),
        ("D".to_string(), 1u64),
        ("E".to_string(), 2u64),
    ];
    assert_eq!(join_artists(&names), "C/D/E");
    assert_eq!(join_artists(&vec![("Solo".to_string(), 9u64)]), "Solo");
    assert_eq!(join_artists(&Vec::new()), "");
}
