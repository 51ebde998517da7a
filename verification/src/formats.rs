//! Detection of the decoded container's audio format and of the cover
//! image's format, as pure functions from header bytes to a closed variant.

use vstd::prelude::*;

verus! {

#[derive(Clone, Copy, PartialEq, Eq, Structural, Debug)]
pub enum AudioFileType {
    Mp3,
    Flac,
}

#[derive(Clone, Copy, PartialEq, Eq, Structural, Debug)]
pub enum ImageFileType {
    Jpeg,
    Png,
    Gif,
}

/// A decrypted header starting with `fLaC` is FLAC; an ID3 header and any
/// unrecognized header both classify as MP3 (a deliberate fallback policy).
pub open spec fn audio_type_spec(h: Seq<u8>) -> AudioFileType
    recommends
        h.len() >= 4,
{
    if h[0] == 0x66u8 && h[1] == 0x4cu8 && h[2] == 0x61u8 && h[3] == 0x43u8 {
        AudioFileType::Flac
    } else {
        AudioFileType::Mp3
    }
}

/// PNG by its full 8-byte signature, JPEG by `FF D8 FF E0`, GIF by `GIF`;
/// anything else is unknown.
pub open spec fn image_type_spec(h: Seq<u8>) -> Option<ImageFileType>
    recommends
        h.len() >= 8,
{
    if h[0] == 137u8 && h[1] == 80u8 && h[2] == 78u8 && h[3] == 71u8 && h[4] == 13u8 && h[5]
        == 10u8 && h[6] == 26u8 && h[7] == 10u8 {
        Some(ImageFileType::Png)
    } else if h[0] == 0xffu8 && h[1] == 0xd8u8 && h[2] == 0xffu8 && h[3] == 0xe0u8 {
        Some(ImageFileType::Jpeg)
    } else if h[0] == 71u8 && h[1] == 73u8 && h[2] == 70u8 {
        Some(ImageFileType::Gif)
    } else {
        None
    }
}

pub open spec fn mime_type_spec(t: ImageFileType) -> Seq<char> {
    match t {
        ImageFileType::Png => "image/png"@,
        ImageFileType::Jpeg => "image/jpeg"@,
        ImageFileType::Gif => "image/gif"@,
    }
}

impl AudioFileType {
    pub fn from_header_data(header_data: &[u8]) -> (r: AudioFileType)
        requires
            header_data@.len() >= 4,
        ensures
            r == audio_type_spec(header_data@),
    {
        if header_data[0] == 0x66 && header_data[1] == 0x4c && header_data[2] == 0x61
            && header_data[3] == 0x43 {
            AudioFileType::Flac
        } else {
            // ID3 headers and unrecognized headers alike fall back to MP3.
            AudioFileType::Mp3
        }
    }

    /// The lowercase file extension of this format.
    pub fn extension(&self) -> (r: &'static str)
        ensures
            *self == AudioFileType::Flac ==> r@ == "flac"@,
            *self == AudioFileType::Mp3 ==> r@ == "mp3"@,
    {
        match self {
            AudioFileType::Flac => "flac",
            AudioFileType::Mp3 => "mp3",
        }
    }
}

impl ImageFileType {
    pub fn from_header_data(header_data: &[u8]) -> (r: Option<ImageFileType>)
        requires
            header_data@.len() >= 8,
        ensures
            r == image_type_spec(header_data@),
    {
        if header_data[0] == 137 && header_data[1] == 80 && header_data[2] == 78
            && header_data[3] == 71 && header_data[4] == 13 && header_data[5] == 10
            && header_data[6] == 26 && header_data[7] == 10 {
            Some(ImageFileType::Png)
        } else if header_data[0] == 0xff && header_data[1] == 0xd8 && header_data[2] == 0xff
            && header_data[3] == 0xe0 {
            Some(ImageFileType::Jpeg)
        } else if header_data[0] == 71 && header_data[1] == 73 && header_data[2] == 70 {
            Some(ImageFileType::Gif)
        } else {
            None
        }
    }

    /// The MIME type string embedded beside the cover image.
    pub fn mime_type(&self) -> (r: String)
        ensures
            r@ == mime_type_spec(*self),
    {
        match self {
            ImageFileType::Png => "image/png".to_owned(),
            ImageFileType::Jpeg => "image/jpeg".to_owned(),
            ImageFileType::Gif => "image/gif".to_owned(),
        }
    }
}

/// A cover image together with its detected format.
pub struct Image {
    pub format: ImageFileType,
    pub data: Vec<u8>,
}

/// A decoded audio stream together with its detected format.
pub struct Audio {
    pub format: AudioFileType,
    pub data: Vec<u8>,
}

} // verus!
