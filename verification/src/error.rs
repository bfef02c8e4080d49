//! Error taxonomy of the cover-art adapter.
//!
//! The native tagging library reports failures through a fixed integer status
//! code. [`status_to_error`] is the mathematical mapping from a code to its
//! error kind, and [`TagLibError::from_status_code`] is its executable twin:
//! every documented code maps to its own variant, and every undocumented code
//! falls back to [`TagLibError::Unknown`]. No raw status code ever escapes to
//! a caller of this crate.

use vstd::prelude::*;

verus! {

/// A failure reported by the native tagging library, one variant per
/// documented status code.
#[derive(Clone, Copy, Debug, PartialEq, Eq, Structural)]
pub enum TagLibError {
    /// The MP3 file holds no ID3v2 tag.
    Mp3fileTag,
    /// The MP4 file holds no `covr` frame.
    Mp4fileCovrFrame,
    /// The `covr` frame of the MP4 file is empty.
    Mp4fileCovrList,
    /// The ASF file holds no cover art.
    AsffileTag,
    /// The ID3v2 tag holds no cover art.
    Id3v2Tag,
    /// The Xiph tag holds no cover art.
    XiphTag,
    /// The file format is not supported.
    UnsupportedFile,
    /// Neither an ID3v2 nor a Xiph tag is present.
    Id3andXiphNotFound,
    /// A status code outside the documented enumeration.
    Unknown,
}

/// The fixed mapping from a native status code to its error kind.
pub open spec fn status_to_error(code: int) -> TagLibError {
    if code == 1 {
        TagLibError::Mp3fileTag
    } else if code == 11 {
        TagLibError::Mp4fileCovrFrame
    } else if code == 12 {
        TagLibError::Mp4fileCovrList
    } else if code == 21 {
        TagLibError::AsffileTag
    } else if code == 31 {
        TagLibError::Id3v2Tag
    } else if code == 41 {
        TagLibError::XiphTag
    } else if code == 91 {
        TagLibError::UnsupportedFile
    } else if code == 92 {
        TagLibError::Id3andXiphNotFound
    } else {
        TagLibError::Unknown
    }
}

impl TagLibError {
    /// Maps a native status code to its error kind, exactly as
    /// [`status_to_error`] does.
    pub fn from_status_code(code: i32) -> (r: TagLibError)
        ensures
            r == status_to_error(code as int),
    {
        match code {
            1 => TagLibError::Mp3fileTag,
            11 => TagLibError::Mp4fileCovrFrame,
            12 => TagLibError::Mp4fileCovrList,
            21 => TagLibError::AsffileTag,
            31 => TagLibError::Id3v2Tag,
            41 => TagLibError::XiphTag,
            91 => TagLibError::UnsupportedFile,
            92 => TagLibError::Id3andXiphNotFound,
            _ => TagLibError::Unknown,
        }
    }
}

/// Any failure a caller of the adapter can observe.
#[derive(Clone, Copy, Debug, PartialEq, Eq, Structural)]
pub enum Error {
    /// The native library could not open or parse the given path.
    InvalidFileName,
    /// A native string result was not valid UTF-8.
    Utf8Error,
    /// The native library reported a tag failure.
    TagLibError(TagLibError),
    /// The supplied bytes do not decode as an image.
    ImageError,
}

} // verus!
