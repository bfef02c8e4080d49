//! The picture record and the two conversions it crosses.
//!
//! A [`Picture`] is what the adapter exchanges with the native library: the
//! raw image bytes and their MIME type, both owned. Before a write the bytes
//! must decode as a real image; the decoder's verdict and the measured
//! dimensions are named by [`image_meta_of`]. After a read the native MIME
//! string arrives as raw bytes and must be valid UTF-8 before it becomes a
//! [`String`].

use vstd::prelude::*;
use vstd::utf8::decode_utf8;
use vstd::utf8::valid_utf8;

verus! {

/// An embedded picture: raw image bytes and their MIME type.
#[derive(Debug)]
pub struct Picture {
    /// The encoded image, byte for byte as it is stored in the tag.
    pub data: Vec<u8>,
    /// The MIME type of `data`, such as `image/png`.
    pub mime: String,
}

/// What the native writer is told about a picture: its pixel dimensions and
/// the bits per pixel of its color type.
#[derive(Clone, Copy, Debug, PartialEq, Eq, Structural)]
pub struct PictureMeta {
    /// Width in pixels.
    pub width: u32,
    /// Height in pixels.
    pub height: u32,
    /// Bits per pixel of the decoded color type.
    pub depth: u16,
}

/// What decoding a byte sequence as an image yields: `None` when the bytes
/// are not a decodable image, otherwise the width, height and bits per pixel
/// of the decoded image. The outcome depends on the bytes alone.
pub uninterp spec fn image_meta_of(bytes: Seq<u8>) -> Option<(u32, u32, u16)>;

/// Relies on `image::load_from_memory`, which guesses the format from the
/// bytes themselves and decodes them, and, on success, on
/// `GenericImageView::dimensions` and `DynamicImage::color` together with
/// `ColorType::bits_per_pixel` to measure the decoded image. The outcome is a
/// function of the bytes alone.
#[verifier::external_body]
pub(crate) fn decode_image(data: &Vec<u8>) -> (r: Option<(u32, u32, u16)>)
    ensures
        r == image_meta_of(data@),
{
    match image::load_from_memory(data.as_slice()) {
        Ok(img) => {
            let (w, h) = image::GenericImageView::dimensions(&img);
            Some((w, h, img.color().bits_per_pixel()))
        },
        Err(_) => None,
    }
}

/// Relies on `String::from_utf8`: it returns `Ok` exactly when the bytes are
/// valid UTF-8, and then the string whose characters decode those bytes.
#[verifier::external_body]
pub(crate) fn bytes_to_string(v: Vec<u8>) -> (r: Option<String>)
    ensures
        r is Some <==> valid_utf8(v@),
        r matches Some(s) ==> s@ == decode_utf8(v@),
{
    String::from_utf8(v).ok()
}

} // verus!
