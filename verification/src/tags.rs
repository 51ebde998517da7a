//! Re-embedding of metadata and cover art into the decoded audio stream:
//! Vorbis comments and a picture block for FLAC, ID3v2.4 frames for MP3. The
//! container byte layout itself is delegated to the format libraries behind
//! trusted wrappers; the rules around them (no-op on absent data, trailing
//! audio bytes preserved) are verified.

use vstd::prelude::*;
use vstd::slice::slice_subrange;
use crate::errors::NcmError;
use crate::formats::{mime_type_spec, Audio, Image};
use crate::metadata::Metadata;
use crate::reader::{clone_bytes, le32_at};
use id3::TagLike;

verus! {

/// The big-endian 32-bit value at position `p` of `d`.
pub open spec fn be32_at(d: Seq<u8>, p: int) -> int
    recommends
        0 <= p,
        p + 4 <= d.len(),
{
    16777216 * (d[p] as int) + 65536 * (d[p + 1] as int) + 256 * (d[p + 2] as int) + (d[p
        + 3] as int)
}

/// The big-endian 24-bit value at position `p` of `d`.
pub open spec fn be24_at(d: Seq<u8>, p: int) -> int
    recommends
        0 <= p,
        p + 3 <= d.len(),
{
    65536 * (d[p] as int) + 256 * (d[p + 1] as int) + (d[p + 2] as int)
}

/// Totality of metaflac's comment-list walk from position `i` with `count`
/// entries left: every length field and comment body lies inside the block,
/// and every comment holds a `=` byte (metaflac slices unchecked and indexes
/// past a missing separator).
pub open spec fn vorbis_comments_safe(d: Seq<u8>, i: int, count: int) -> bool
    decreases count,
{
    if count <= 0 {
        true
    } else if i + 4 > d.len() {
        false
    } else {
        let l = le32_at(d, i);
        if i + 4 + l > d.len() {
            false
        } else {
            (exists|k: int| i + 4 <= k < i + 4 + l && d[k] == 61u8) && vorbis_comments_safe(
                d,
                i + 4 + l,
                count - 1,
            )
        }
    }
}

/// Totality of metaflac's Vorbis-comment block parser on the block content.
pub open spec fn vorbis_safe(d: Seq<u8>) -> bool {
    if d.len() < 4 {
        false
    } else {
        let vl = le32_at(d, 0);
        if 4 + vl + 4 > d.len() {
            false
        } else {
            vorbis_comments_safe(d, 4 + vl + 4, le32_at(d, 4 + vl))
        }
    }
}

/// Totality of metaflac's picture block parser on the block content: the
/// type, the three length fields and the regions they declare all lie inside
/// the block.
pub open spec fn picture_safe(d: Seq<u8>) -> bool {
    if d.len() < 12 {
        false
    } else {
        let ml = be32_at(d, 4);
        if 12 + ml > d.len() {
            false
        } else {
            let dl = be32_at(d, 8 + ml);
            if 32 + ml + dl > d.len() {
                false
            } else {
                let pl = be32_at(d, 28 + ml + dl);
                32 + ml + dl + pl <= d.len()
            }
        }
    }
}

/// Totality of metaflac's cue-sheet track walk from position `i` with
/// `count` tracks left: each 36-byte track header and its declared indices
/// lie inside the block.
pub open spec fn cuesheet_tracks_safe(d: Seq<u8>, i: int, count: int) -> bool
    decreases count,
{
    if count <= 0 {
        true
    } else if i + 36 > d.len() {
        false
    } else {
        let n_idx = d[i + 35] as int;
        if i + 36 + 12 * n_idx > d.len() {
            false
        } else {
            cuesheet_tracks_safe(d, i + 36 + 12 * n_idx, count - 1)
        }
    }
}

/// Totality of metaflac's cue-sheet block parser on the block content: the
/// fixed 396-byte header and every track's walk lie inside the block.
pub open spec fn cuesheet_safe(d: Seq<u8>) -> bool {
    d.len() >= 396 && cuesheet_tracks_safe(d, 396, d[395] as int)
}

/// Totality of metaflac's per-type block content parser. Stream-info and
/// application blocks need their fixed prefixes; padding, seek-table and
/// unknown blocks are parsed without content reads; Vorbis-comment, picture
/// and cue-sheet blocks need their whole walks inside the block.
pub open spec fn block_content_safe(ty: int, d: Seq<u8>) -> bool {
    if ty == 0 {
        d.len() >= 34
    } else if ty == 2 {
        d.len() >= 4
    } else if ty == 4 {
        vorbis_safe(d)
    } else if ty == 5 {
        cuesheet_safe(d)
    } else if ty == 6 {
        picture_safe(d)
    } else {
        true
    }
}

/// Totality of metaflac's block walk from position `i`: a truncated header
/// ends the walk cleanly, but every block's declared content must be present
/// and parse without out-of-range reads.
pub open spec fn blocks_safe(d: Seq<u8>, i: int) -> bool
    decreases d.len() - i,
{
    if i < 0 || i + 4 > d.len() {
        true
    } else {
        let last = d[i] >= 128;
        let ty = (d[i] % 128) as int;
        let l = be24_at(d, i + 1);
        if i + 4 + l > d.len() {
            false
        } else {
            block_content_safe(ty, d.subrange(i + 4, i + 4 + l)) && (last || blocks_safe(
                d,
                i + 4 + l,
            ))
        }
    }
}

/// The streams on which metaflac's tag reader is known not to panic: either
/// the input does not open a FLAC or ID3 header at all (the reader then fails
/// cleanly), or it opens with fLaC and its whole block walk is total.
/// ID3-prefixed streams are not accepted for rewriting.
pub open spec fn flac_safe(d: Seq<u8>) -> bool {
    if d.len() >= 4 && d[0] == 0x66u8 && d[1] == 0x4cu8 && d[2] == 0x61u8 && d[3] == 0x43u8 {
        blocks_safe(d, 4)
    } else if d.len() >= 4 && d[0] == 0x49u8 && d[1] == 0x44u8 && d[2] == 0x33u8 && (d[3] == 2u8
        || d[3] == 3u8 || d[3] == 4u8) {
        false
    } else {
        true
    }
}

/// The 28-bit synchsafe value at position `p` of `d` (7 bits per byte).
pub open spec fn synchsafe32_at(d: Seq<u8>, p: int) -> int
    recommends
        0 <= p,
        p + 4 <= d.len(),
{
    2097152 * ((d[p] % 128) as int) + 16384 * ((d[p + 1] % 128) as int) + 128 * ((d[p
        + 2] % 128) as int) + ((d[p + 3] % 128) as int)
}

/// A plain ID3v2.3/v2.4 frame walk from `i` to `end`: every frame header has
/// zero flag bytes (no compression, encryption, per-frame unsynchronisation
/// or data-length indicator) and its declared size stays inside the region; a
/// zero byte opens padding and ends the walk.
pub open spec fn id3_frames_plain(d: Seq<u8>, i: int, end: int, v4: bool) -> bool
    decreases end - i,
{
    if i < 0 || i + 10 > end || end > d.len() {
        true
    } else if d[i] == 0 {
        true
    } else {
        let fs = if v4 {
            synchsafe32_at(d, i + 4)
        } else {
            be32_at(d, i + 4)
        };
        &&& (v4 ==> d[i + 4] < 128 && d[i + 5] < 128 && d[i + 6] < 128 && d[i + 7] < 128)
        &&& d[i + 8] == 0
        &&& d[i + 9] == 0
        &&& i + 10 + fs <= end
        &&& id3_frames_plain(d, i + 10 + fs, end, v4)
    }
}

/// The streams whose ID3 region is plain and small: either no ID3v2 (or
/// AIFF/WAV chunk) header opens the buffer, or an ID3v2.3/v2.4 header with
/// zero tag flags declares at most 4 MiB of frames, all of them plain.
pub open spec fn id3_plain(d: Seq<u8>) -> bool {
    if d.len() < 3 {
        true
    } else if d[0] == 0x49u8 && d[1] == 0x44u8 && d[2] == 0x33u8 {
        if d.len() >= 10 && (d[3] == 3u8 || d[3] == 4u8) && d[5] == 0u8 && d[6] < 128 && d[7]
            < 128 && d[8] < 128 && d[9] < 128 {
            let size = synchsafe32_at(d, 6);
            &&& size <= 0x400000
            &&& id3_frames_plain(
                d,
                10,
                if 10 + size <= d.len() {
                    10 + size
                } else {
                    d.len() as int
                },
                d[3] == 4u8,
            )
        } else {
            false
        }
    } else if d.len() >= 4 && ((d[0] == 0x46u8 && d[1] == 0x4fu8 && d[2] == 0x52u8 && d[3]
        == 0x4du8) || (d[0] == 0x52u8 && d[1] == 0x49u8 && d[2] == 0x46u8 && d[3] == 0x46u8)) {
        false
    } else {
        true
    }
}

fn read_le32(d: &[u8], p: usize) -> (r: u32)
    requires
        p + 4 <= d@.len(),
    ensures
        r as int == le32_at(d@, p as int),
{
    (d[p] as u32) + 256 * (d[p + 1] as u32) + 65536 * (d[p + 2] as u32) + 16777216 * (d[p
        + 3] as u32)
}

fn read_be32(d: &[u8], p: usize) -> (r: u32)
    requires
        p + 4 <= d@.len(),
    ensures
        r as int == be32_at(d@, p as int),
{
    16777216 * (d[p] as u32) + 65536 * (d[p + 1] as u32) + 256 * (d[p + 2] as u32) + (d[p
        + 3] as u32)
}

fn read_be24(d: &[u8], p: usize) -> (r: u32)
    requires
        p + 3 <= d@.len(),
    ensures
        r as int == be24_at(d@, p as int),
{
    65536 * (d[p] as u32) + 256 * (d[p + 1] as u32) + (d[p + 2] as u32)
}

fn read_synchsafe32(d: &[u8], p: usize) -> (r: u32)
    requires
        p + 4 <= d@.len(),
    ensures
        r as int == synchsafe32_at(d@, p as int),
{
    2097152 * ((d[p] % 128) as u32) + 16384 * ((d[p + 1] % 128) as u32) + 128 * ((d[p
        + 2] % 128) as u32) + ((d[p + 3] % 128) as u32)
}

/// Checks that the stream's leading ID3 region (if any) is plain and small.
pub fn id3_plain_check(d: &[u8]) -> (r: bool)
    ensures
        r == id3_plain(d@),
{
    let n: usize = d.len();
    if n < 3 {
        return true;
    }
    if d[0] == 0x49 && d[1] == 0x44 && d[2] == 0x33 {
        if !(n >= 10 && (d[3] == 3 || d[3] == 4) && d[5] == 0 && d[6] < 128 && d[7] < 128 && d[8]
            < 128 && d[9] < 128) {
            return false;
        }
        let size: usize = read_synchsafe32(d, 6) as usize;
        if size > 0x400000 {
            return false;
        }
        let v4: bool = d[3] == 4;
        let end: usize = if 10 + size <= n {
            10 + size
        } else {
            n
        };
        let mut i: usize = 10;
        let mut looping: bool = true;
        while looping
            invariant
                n == d@.len(),
                end <= n,
                i <= end || !looping,
                looping ==> id3_frames_plain(d@, i as int, end as int, v4) == id3_plain(d@),
                !looping ==> id3_plain(d@),
            decreases end - i, (if looping { 1int } else { 0int }),
        {
            if end - i < 10 {
                looping = false;
            } else if d[i] == 0 {
                looping = false;
            } else {
                if v4 && !(d[i + 4] < 128 && d[i + 5] < 128 && d[i + 6] < 128 && d[i + 7]
                    < 128) {
                    return false;
                }
                let fs: usize = if v4 {
                    read_synchsafe32(d, i + 4) as usize
                } else {
                    read_be32(d, i + 4) as usize
                };
                if !(d[i + 8] == 0 && d[i + 9] == 0) {
                    return false;
                }
                if fs > end - (i + 10) {
                    return false;
                }
                i = i + 10 + fs;
            }
        }
        true
    } else if n >= 4 && ((d[0] == 0x46 && d[1] == 0x4f && d[2] == 0x52 && d[3] == 0x4d) || (d[0]
        == 0x52 && d[1] == 0x49 && d[2] == 0x46 && d[3] == 0x46)) {
        false
    } else {
        true
    }
}

/// Checks that metaflac's comment-list walk stays inside the block.
fn vorbis_check(d: &[u8]) -> (r: bool)
    ensures
        r == vorbis_safe(d@),
{
    let n: usize = d.len();
    if n < 4 {
        return false;
    }
    let vl: usize = read_le32(d, 0) as usize;
    if n < 8 || vl > n - 8 {
        return false;
    }
    let count: u32 = read_le32(d, 4 + vl);
    let mut i: usize = 4 + vl + 4;
    let mut c: u32 = 0;
    while c < count
        invariant
            n == d@.len(),
            i <= n,
            vorbis_comments_safe(d@, i as int, count - c) == vorbis_safe(d@),
        decreases count - c,
    {
        if n - i < 4 {
            return false;
        }
        let l: usize = read_le32(d, i) as usize;
        if l > n - (i + 4) {
            return false;
        }
        let mut found: bool = false;
        let mut k: usize = i + 4;
        while k < i + 4 + l
            invariant
                n == d@.len(),
                i + 4 <= k <= i + 4 + l,
                i + 4 + l <= n,
                found <==> exists|j: int| i + 4 <= j < k && d@[j] == 61u8,
            decreases i + 4 + l - k,
        {
            if d[k] == 61 {
                found = true;
            }
            k += 1;
        }
        if !found {
            return false;
        }
        i = i + 4 + l;
        c += 1;
    }
    true
}

/// Checks that metaflac's cue-sheet walk stays inside the block.
fn cuesheet_check(d: &[u8]) -> (r: bool)
    ensures
        r == cuesheet_safe(d@),
{
    let n: usize = d.len();
    if n < 396 {
        return false;
    }
    let count: u8 = d[395];
    let mut i: usize = 396;
    let mut c: u8 = 0;
    while c < count
        invariant
            n == d@.len(),
            i <= n,
            cuesheet_tracks_safe(d@, i as int, count - c) == cuesheet_safe(d@),
        decreases count - c,
    {
        if n - i < 36 {
            return false;
        }
        let n_idx: usize = d[i + 35] as usize;
        if 12 * n_idx > n - (i + 36) {
            return false;
        }
        i = i + 36 + 12 * n_idx;
        c += 1;
    }
    true
}

/// Checks that metaflac's picture parser stays inside the block.
fn picture_check(d: &[u8]) -> (r: bool)
    ensures
        r == picture_safe(d@),
{
    let n: usize = d.len();
    if n < 12 {
        return false;
    }
    let ml: usize = read_be32(d, 4) as usize;
    if ml > n - 12 {
        return false;
    }
    let dl: usize = read_be32(d, 8 + ml) as usize;
    if n < 32 || ml > n - 32 || dl > n - 32 - ml {
        return false;
    }
    let pl: usize = read_be32(d, 28 + ml + dl) as usize;
    if pl > n - 32 - ml - dl {
        return false;
    }
    true
}

/// Checks that handing these bytes to metaflac's tag reader cannot read out
/// of range: the block walk and each parsed block's content are total.
pub fn flac_structure_check(d: &[u8]) -> (r: bool)
    ensures
        r == flac_safe(d@),
{
    let n: usize = d.len();
    if n < 4 {
        return true;
    }
    if d[0] == 0x66 && d[1] == 0x4c && d[2] == 0x61 && d[3] == 0x43 {
        let mut i: usize = 4;
        loop
            invariant
                n == d@.len(),
                4 <= i <= n,
                blocks_safe(d@, i as int) == flac_safe(d@),
            decreases n - i,
        {
            if n - i < 4 {
                return true;
            }
            let h: u8 = d[i];
            let last: bool = h >= 128;
            let ty: u8 = h % 128;
            let l: usize = read_be24(d, i + 1) as usize;
            if l > n - (i + 4) {
                return false;
            }
            let content = slice_subrange(d, i + 4, i + 4 + l);
            let ok: bool = if ty == 0 {
                l >= 34
            } else if ty == 2 {
                l >= 4
            } else if ty == 4 {
                vorbis_check(content)
            } else if ty == 5 {
                cuesheet_check(content)
            } else if ty == 6 {
                picture_check(content)
            } else {
                true
            };
            if !ok {
                return false;
            }
            if last {
                return true;
            }
            i = i + 4 + l;
        }
    } else if d[0] == 0x49 && d[1] == 0x44 && d[2] == 0x33 && (d[3] == 2 || d[3] == 3 || d[3]
        == 4) {
        false
    } else {
        true
    }
}

#[verifier::external_type_specification]
#[verifier::external_body]
pub struct ExFlacTag(metaflac::Tag);

#[verifier::external_type_specification]
#[verifier::external_body]
pub struct ExId3Tag(id3::Tag);

/// The bytes that follow the FLAC metadata blocks of a stream (the whole
/// stream when it does not start with the fLaC marker): a pure function of
/// the input bytes.
pub uninterp spec fn flac_trailing_spec(data: Seq<u8>) -> Seq<u8>;

/// Whether metaflac's tag reader accepts these bytes as a FLAC metadata
/// stream: a pure function of the input.
pub uninterp spec fn flac_parse_ok(data: Seq<u8>) -> bool;

/// Tags whose rendering cannot hit metaflac's writer asserts: the stream-info
/// channel and bits-per-sample counts are nonzero, every cue-sheet catalog
/// number is at most 128 bytes and every ISRC at most 12. Parsing establishes
/// all of these (parsed counts carry a +1, catalog and ISRC are fixed-width),
/// and the comment setters and picture adder touch no such block.
pub uninterp spec fn flac_renderable(t: metaflac::Tag) -> bool;

/// Relies on metaflac::Tag::read_from: parses the fLaC marker and the
/// metadata blocks; `None` where the stream is not well-formed FLAC;
/// deterministic in the input. Its block-content parsers index without bounds
/// checks, so only structurally total streams (`flac_safe`) are handed in.
#[verifier::external_body]
fn flac_read_tag(data: &[u8]) -> (r: Option<metaflac::Tag>)
    requires
        flac_safe(data@),
    ensures
        r is Some <==> flac_parse_ok(data@),
        r matches Some(t) ==> flac_renderable(t),
{
    let mut cursor = std::io::Cursor::new(data);
    metaflac::Tag::read_from(&mut cursor).ok()
}

/// Relies on metaflac::Tag::skip_metadata: returns the bytes that follow the
/// metadata blocks, deterministically in the input bytes.
#[verifier::external_body]
fn flac_audio_frames(data: &[u8]) -> (r: Vec<u8>)
    ensures
        r@ == flac_trailing_spec(data@),
{
    let mut cursor = std::io::Cursor::new(data);
    metaflac::Tag::skip_metadata(&mut cursor)
}

/// The TITLE values of a tag's Vorbis comment block: a pure function of the
/// tag.
pub uninterp spec fn flac_tag_title(t: metaflac::Tag) -> Option<Seq<Seq<char>>>;

/// The ALBUM values of a tag's Vorbis comment block.
pub uninterp spec fn flac_tag_album(t: metaflac::Tag) -> Option<Seq<Seq<char>>>;

/// The ARTIST values of a tag's Vorbis comment block.
pub uninterp spec fn flac_tag_artist(t: metaflac::Tag) -> Option<Seq<Seq<char>>>;

/// The (MIME type, bytes) pairs of a tag's picture blocks.
pub uninterp spec fn flac_tag_pictures(t: metaflac::Tag) -> Seq<(Seq<char>, Seq<u8>)>;

/// Relies on metaflac VorbisComment::set_title via Tag::vorbis_comments_mut:
/// replaces the TITLE values and touches no other modelled field.
#[verifier::external_body]
fn flac_set_title(tag: &mut metaflac::Tag, values: Vec<String>)
    ensures
        flac_tag_title(*final(tag)) == Some(values.deep_view()),
        flac_renderable(*final(tag)) == flac_renderable(*old(tag)),
        flac_tag_album(*final(tag)) == flac_tag_album(*old(tag)),
        flac_tag_artist(*final(tag)) == flac_tag_artist(*old(tag)),
        flac_tag_pictures(*final(tag)) == flac_tag_pictures(*old(tag)),
{
    tag.vorbis_comments_mut().set_title(values);
}

/// Relies on metaflac VorbisComment::set_album via Tag::vorbis_comments_mut:
/// replaces the ALBUM values and touches no other modelled field.
#[verifier::external_body]
fn flac_set_album(tag: &mut metaflac::Tag, values: Vec<String>)
    ensures
        flac_tag_album(*final(tag)) == Some(values.deep_view()),
        flac_renderable(*final(tag)) == flac_renderable(*old(tag)),
        flac_tag_title(*final(tag)) == flac_tag_title(*old(tag)),
        flac_tag_artist(*final(tag)) == flac_tag_artist(*old(tag)),
        flac_tag_pictures(*final(tag)) == flac_tag_pictures(*old(tag)),
{
    tag.vorbis_comments_mut().set_album(values);
}

/// Relies on metaflac VorbisComment::set_artist via Tag::vorbis_comments_mut:
/// replaces the ARTIST values and touches no other modelled field.
#[verifier::external_body]
fn flac_set_artist(tag: &mut metaflac::Tag, values: Vec<String>)
    ensures
        flac_tag_artist(*final(tag)) == Some(values.deep_view()),
        flac_renderable(*final(tag)) == flac_renderable(*old(tag)),
        flac_tag_title(*final(tag)) == flac_tag_title(*old(tag)),
        flac_tag_album(*final(tag)) == flac_tag_album(*old(tag)),
        flac_tag_pictures(*final(tag)) == flac_tag_pictures(*old(tag)),
{
    tag.vorbis_comments_mut().set_artist(values);
}

/// Relies on metaflac::Tag::add_picture with PictureType::CoverFront: the
/// added picture is among the tag's pictures afterwards (one of the same
/// type is replaced), and the comment fields are untouched.
#[verifier::external_body]
fn flac_add_picture(tag: &mut metaflac::Tag, mime: String, data: Vec<u8>)
    ensures
        flac_tag_pictures(*final(tag)).contains((mime@, data@)),
        flac_renderable(*final(tag)) == flac_renderable(*old(tag)),
        flac_tag_title(*final(tag)) == flac_tag_title(*old(tag)),
        flac_tag_album(*final(tag)) == flac_tag_album(*old(tag)),
        flac_tag_artist(*final(tag)) == flac_tag_artist(*old(tag)),
{
    tag.add_picture(mime, metaflac::block::PictureType::CoverFront, data);
}

/// Relies on metaflac::Tag::write_to (on a clone, which recomputes lengths):
/// renders the fLaC marker and the blocks. On a renderable tag the writer's
/// asserts hold, its only other failure paths are I/O errors, and writing
/// into a Vec cannot fail, so the rendering always succeeds.
#[verifier::external_body]
fn flac_tag_bytes(tag: &metaflac::Tag) -> (r: Option<Vec<u8>>)
    requires
        flac_renderable(*tag),
    ensures
        r is Some,
{
    let mut out: Vec<u8> = Vec::new();
    match tag.clone().write_to(&mut out) {
        Ok(()) => Some(out),
        Err(_) => None,
    }
}

/// Whether these bytes carry either no ID3 tag or a well-formed one, so that
/// tag rewriting can proceed: a pure function of the input.
pub uninterp spec fn id3_source_ok(data: Seq<u8>) -> bool;

/// An upper bound on the byte size of the tag's ID3v2.4 encoding: a pure
/// function of the tag's frames. The encoder asserts that the rendered tag is
/// smaller than 2^28 bytes, so rendering is only attempted below that bound.
pub uninterp spec fn id3_size_bound(t: id3::Tag) -> int;

/// What id3's ID3v2.4 encoder renders for a tag: a pure function of the tag's
/// frames, `None` where a frame fails validation.
pub uninterp spec fn id3_render_spec(tag: id3::Tag) -> Option<Seq<u8>>;

/// Relies on id3::Tag::read_from2 and id3::no_tag_ok: an existing tag is
/// parsed, a stream without one gets a fresh empty tag, and a malformed tag
/// is `None`; deterministic in the input, and Result-driven throughout (no
/// panic). The size claim: on a plain stream the tag is either freshly empty,
/// or parsed from an uncompressed, unencrypted frame region of at most 4 MiB
/// whose per-frame content decodes with at most a 2x charset expansion
/// (Latin-1 or UTF-16 to UTF-8) and re-encodes under the same 10-byte frame
/// headers, so its rendering stays far below 32 MiB.
#[verifier::external_body]
fn id3_read_tag(data: &[u8]) -> (r: Option<id3::Tag>)
    ensures
        r is Some <==> id3_source_ok(data@),
        id3_plain(data@) ==> (r matches Some(t) ==> id3_size_bound(t) <= 0x2000000),
{
    match id3::no_tag_ok(id3::Tag::read_from2(std::io::Cursor::new(data))) {
        Ok(Some(tag)) => Some(tag),
        Ok(None) => Some(id3::Tag::new()),
        Err(_) => None,
    }
}

/// The TIT2 (title) text of a tag: a pure function of the tag's frames.
pub uninterp spec fn id3_tag_title(t: id3::Tag) -> Option<Seq<char>>;

/// The TALB (album) text of a tag.
pub uninterp spec fn id3_tag_album(t: id3::Tag) -> Option<Seq<char>>;

/// The TPE1 (artist) text of a tag.
pub uninterp spec fn id3_tag_artist(t: id3::Tag) -> Option<Seq<char>>;

/// The (MIME type, bytes) pairs of a tag's APIC frames.
pub uninterp spec fn id3_tag_pictures(t: id3::Tag) -> Seq<(Seq<char>, Seq<u8>)>;

/// Relies on id3 TagLike::set_title: replaces the TIT2 frame and touches no
/// other modelled field.
#[verifier::external_body]
fn id3_set_title(tag: &mut id3::Tag, title: String)
    ensures
        id3_tag_title(*final(tag)) == Some(title@),
        id3_size_bound(*final(tag)) <= id3_size_bound(*old(tag)) + 4 * title@.len() + 64,
        id3_tag_album(*final(tag)) == id3_tag_album(*old(tag)),
        id3_tag_artist(*final(tag)) == id3_tag_artist(*old(tag)),
        id3_tag_pictures(*final(tag)) == id3_tag_pictures(*old(tag)),
{
    tag.set_title(title);
}

/// Relies on id3 TagLike::set_album: replaces the TALB frame and touches no
/// other modelled field.
#[verifier::external_body]
fn id3_set_album(tag: &mut id3::Tag, album: String)
    ensures
        id3_tag_album(*final(tag)) == Some(album@),
        id3_size_bound(*final(tag)) <= id3_size_bound(*old(tag)) + 4 * album@.len() + 64,
        id3_tag_title(*final(tag)) == id3_tag_title(*old(tag)),
        id3_tag_artist(*final(tag)) == id3_tag_artist(*old(tag)),
        id3_tag_pictures(*final(tag)) == id3_tag_pictures(*old(tag)),
{
    tag.set_album(album);
}

/// Relies on id3 TagLike::set_artist: replaces the TPE1 frame and touches no
/// other modelled field.
#[verifier::external_body]
fn id3_set_artist(tag: &mut id3::Tag, artist: String)
    ensures
        id3_tag_artist(*final(tag)) == Some(artist@),
        id3_size_bound(*final(tag)) <= id3_size_bound(*old(tag)) + 4 * artist@.len() + 64,
        id3_tag_title(*final(tag)) == id3_tag_title(*old(tag)),
        id3_tag_album(*final(tag)) == id3_tag_album(*old(tag)),
        id3_tag_pictures(*final(tag)) == id3_tag_pictures(*old(tag)),
{
    tag.set_artist(artist);
}

/// Relies on id3 TagLike::add_frame with a Picture: the added APIC
/// front-cover frame is among the tag's pictures afterwards, and the text
/// frames are untouched.
#[verifier::external_body]
fn id3_add_picture(tag: &mut id3::Tag, mime: String, data: Vec<u8>)
    ensures
        id3_tag_pictures(*final(tag)).contains((mime@, data@)),
        id3_size_bound(*final(tag)) <= id3_size_bound(*old(tag)) + data@.len() + 4 * mime@.len()
            + 256,
        id3_tag_title(*final(tag)) == id3_tag_title(*old(tag)),
        id3_tag_album(*final(tag)) == id3_tag_album(*old(tag)),
        id3_tag_artist(*final(tag)) == id3_tag_artist(*old(tag)),
{
    tag.add_frame(
        id3::frame::Picture {
            mime_type: mime,
            picture_type: id3::frame::PictureType::CoverFront,
            description: String::new(),
            data,
        },
    );
}

/// Relies on id3::Tag::write_to with Version::Id3v24: renders the tag bytes,
/// deterministically in the tag's frames; `None` where a frame fails the
/// encoder's validation. Tags are only rendered below the encoder's 2^28
/// size assertion.
#[verifier::external_body]
fn id3_tag_bytes(tag: &id3::Tag) -> (r: Option<Vec<u8>>)
    requires
        id3_size_bound(*tag) < 0x10000000,
    ensures
        (match r {
            Some(v) => id3_render_spec(*tag) == Some(v@),
            None => id3_render_spec(*tag) is None,
        }),
{
    let mut out: Vec<u8> = Vec::new();
    match tag.write_to(&mut out, id3::Version::Id3v24) {
        Ok(()) => Some(out),
        Err(_) => None,
    }
}

/// Relies on std's String::push_str: appends the given slice.
#[verifier::external_body]
fn string_push_str(s: &mut String, t: &str)
    ensures
        final(s)@ == old(s)@ + t@,
{
    s.push_str(t);
}

/// Relies on std's str::len: the UTF-8 byte length, which is never below the
/// character count.
#[verifier::external_body]
fn str_within(s: &str, n: usize) -> (r: bool)
    ensures
        r ==> s@.len() <= n,
{
    s.len() <= n
}

/// The names joined with `/` between consecutive entries.
pub open spec fn join_slash(names: Seq<Seq<char>>) -> Seq<char>
    decreases names.len(),
{
    if names.len() == 0 {
        Seq::empty()
    } else if names.len() == 1 {
        names[0]
    } else {
        join_slash(names.drop_last()) + "/"@ + names.last()
    }
}

/// Joins the artist names into the single `/`-separated string used by the
/// ID3 artist frame.
pub fn join_artists(artist: &Vec<(String, u64)>) -> (r: String)
    ensures
        r@ == join_slash(artist@.map_values(|p: (String, u64)| p.0@)),
{
    let ghost names = artist@.map_values(|p: (String, u64)| p.0@);
    let mut r = String::new();
    let mut i: usize = 0;
    while i < artist.len()
        invariant
            i <= artist@.len(),
            names == artist@.map_values(|p: (String, u64)| p.0@),
            r@ == join_slash(names.take(i as int)),
        decreases artist@.len() - i,
    {
        if i > 0 {
            string_push_str(&mut r, "/");
        }
        string_push_str(&mut r, artist[i].0.as_str());
        i += 1;
        proof {
            let k = i as int;
            if k == 1 {
                assert(names.take(1).len() == 1);
                assert(Seq::empty() + names[0] =~= names[0]);
            } else {
                assert(names.take(k).drop_last() =~= names.take(k - 1));
                assert(names.take(k).last() == names[k - 1]);
            }
        }
    }
    proof {
        assert(names.take(artist@.len() as int) =~= names);
    }
    r
}

/// Rewrites the Vorbis comment fields and picture block of a decoded FLAC
/// stream. Returns the input unchanged when both image and metadata are
/// absent; otherwise the output is the re-serialized tag block followed by
/// the stream's trailing audio-frame bytes, unchanged.
pub fn add_flac_metadata(audio: &mut Audio, image: &Option<Image>, metadata: &Option<Metadata>) -> (r:
    Result<(), NcmError>)
    ensures
        final(audio).format == old(audio).format,
        (*image) is None && (*metadata) is None ==> r is Ok && *final(audio) == *old(audio),
        r is Err ==> r == Err::<(), NcmError>(NcmError::TagParseError) && *final(audio) == *old(
            audio,
        ),
        (r is Ok && !((*image) is None && (*metadata) is None)) ==> exists|tag_bytes: Seq<u8>|
            final(audio).data@ == tag_bytes + flac_trailing_spec(old(audio).data@),
        !((*image) is None && (*metadata) is None) ==> (r is Ok <==> flac_safe(old(audio).data@)
            && flac_parse_ok(old(audio).data@)),
        (r is Ok && !((*image) is None && (*metadata) is None)) ==> exists|t: metaflac::Tag|
            (
            {
                &&& ((*metadata) matches Some(m) ==> #[trigger] flac_tag_title(t) == Some(
                    seq![m.music_name@],
                ) && flac_tag_album(t) == Some(seq![m.album@]) && flac_tag_artist(t) == Some(
                    m.artist@.map_values(|p: (String, u64)| p.0@),
                ))
                &&& ((*image) matches Some(img) ==> flac_tag_pictures(t).contains(
                    (mime_type_spec(img.format), img.data@),
                ))
            }),
{
    if image.is_none() && metadata.is_none() {
        return Ok(());
    }
    if !flac_structure_check(audio.data.as_slice()) {
        return Err(NcmError::TagParseError);
    }
    let mut tag = match flac_read_tag(audio.data.as_slice()) {
        Some(t) => t,
        None => return Err(NcmError::TagParseError),
    };
    let mut trailing = flac_audio_frames(audio.data.as_slice());
    if let Some(m) = metadata {
        let mut titles: Vec<String> = Vec::new();
        titles.push(m.music_name.clone());
        assert(titles.deep_view() =~= seq![m.music_name@]);
        flac_set_title(&mut tag, titles);
        let mut albums: Vec<String> = Vec::new();
        albums.push(m.album.clone());
        assert(albums.deep_view() =~= seq![m.album@]);
        flac_set_album(&mut tag, albums);
        let mut artists: Vec<String> = Vec::new();
        let mut i: usize = 0;
        while i < m.artist.len()
            invariant
                i <= m.artist@.len(),
                artists@.len() == i,
                forall|k: int| 0 <= k < i ==> artists@[k]@ == m.artist@[k].0@,
            decreases m.artist@.len() - i,
        {
            artists.push(m.artist[i].0.clone());
            i += 1;
        }
        assert(artists.deep_view() =~= m.artist@.map_values(|p: (String, u64)| p.0@));
        flac_set_artist(&mut tag, artists);
    }
    if let Some(img) = image {
        flac_add_picture(&mut tag, img.format.mime_type(), clone_bytes(&img.data));
    }
    let out0 = match flac_tag_bytes(&tag) {
        Some(v) => v,
        None => return Err(NcmError::TagParseError),
    };
    let mut out = out0;
    let ghost tag_seq = out@;
    out.append(&mut trailing);
    audio.data = out;
    assert(audio.data@ == tag_seq + flac_trailing_spec(old(audio).data@));
    Ok(())
}

/// Rewrites the TIT2/TALB/TPE1 frames and APIC picture of a decoded MP3
/// stream. Returns the input unchanged when both image and metadata are
/// absent; otherwise the output is the re-serialized ID3v2.4 tag prefixed
/// onto the input buffer, unchanged.
pub fn add_mp3_metadata(audio: &mut Audio, image: &Option<Image>, metadata: &Option<Metadata>) -> (r:
    Result<(), NcmError>)
    ensures
        final(audio).format == old(audio).format,
        (*image) is None && (*metadata) is None ==> r is Ok && *final(audio) == *old(audio),
        r is Err ==> r == Err::<(), NcmError>(NcmError::TagParseError) && *final(audio) == *old(
            audio,
        ),
        (r is Ok && !((*image) is None && (*metadata) is None)) ==> exists|tag_bytes: Seq<u8>|
            final(audio).data@ == tag_bytes + old(audio).data@,
        !((*image) is None && (*metadata) is None) ==> (r is Ok ==> id3_source_ok(
            old(audio).data@,
        )) && (!id3_source_ok(old(audio).data@) ==> r is Err),
        (r is Ok && !((*image) is None && (*metadata) is None)) ==> exists|t: id3::Tag|
            (
            {
                &&& ((*metadata) matches Some(m) ==> #[trigger] id3_tag_title(t) == Some(
                    m.music_name@,
                ) && id3_tag_album(t) == Some(m.album@) && id3_tag_artist(t) == Some(
                    join_slash(m.artist@.map_values(|p: (String, u64)| p.0@)),
                ))
                &&& ((*image) matches Some(img) ==> id3_tag_pictures(t).contains(
                    (mime_type_spec(img.format), img.data@),
                ))
                &&& (match id3_render_spec(t) {
                    Some(tb) => final(audio).data@ == tb + old(audio).data@,
                    None => false,
                })
            }),
{
    if image.is_none() && metadata.is_none() {
        return Ok(());
    }
    // the encoder's size assertion: only plain, small tag sources and bounded
    // additions are rewritten
    if !id3_plain_check(audio.data.as_slice()) {
        return Err(NcmError::TagParseError);
    }
    let mut tag = match id3_read_tag(audio.data.as_slice()) {
        Some(t) => t,
        None => return Err(NcmError::TagParseError),
    };
    if let Some(m) = metadata {
        if !str_within(m.music_name.as_str(), 0x100000) {
            return Err(NcmError::TagParseError);
        }
        if !str_within(m.album.as_str(), 0x100000) {
            return Err(NcmError::TagParseError);
        }
        let joined = join_artists(&m.artist);
        if !str_within(joined.as_str(), 0x100000) {
            return Err(NcmError::TagParseError);
        }
        id3_set_title(&mut tag, m.music_name.clone());
        id3_set_album(&mut tag, m.album.clone());
        id3_set_artist(&mut tag, joined);
    }
    if let Some(img) = image {
        if img.data.len() > 0x4000000 {
            return Err(NcmError::TagParseError);
        }
        let mime = img.format.mime_type();
        proof {
            reveal_strlit("image/png");
            reveal_strlit("image/jpeg");
            reveal_strlit("image/gif");
            assert(mime@.len() <= 10);
        }
        id3_add_picture(&mut tag, mime, clone_bytes(&img.data));
    }
    assert(id3_size_bound(tag) < 0x10000000);
    let mut out = match id3_tag_bytes(&tag) {
        Some(v) => v,
        None => return Err(NcmError::TagParseError),
    };
    let ghost tag_seq = out@;
    let mut rest = clone_bytes(&audio.data);
    out.append(&mut rest);
    audio.data = out;
    assert(audio.data@ == tag_seq + old(audio).data@);
    Ok(())
}

} // verus!
