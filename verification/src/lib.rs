//! Verified core of a cover-art adapter over a native audio-tagging library.
//!
//! The native library opens a media file, extracts or injects one embedded
//! picture, and reports failures through a fixed integer status code. All tag
//! parsing and file mutation happen on the native side of an FFI boundary,
//! which an unverified shell drives; this crate holds everything the adapter
//! itself decides: the open/release discipline of the native handle, the
//! mapping of every status code to a typed error, the validation and
//! measuring of a picture before it is handed to the native writer, and the
//! marshalling of the native read result into owned values.

use vstd::prelude::*;

pub mod error;
pub mod picture;

verus! {

pub use crate::error::Error;
pub use crate::error::TagLibError;
pub use crate::picture::Picture;
pub use crate::picture::PictureMeta;

use crate::error::status_to_error;
use crate::picture::bytes_to_string;
use crate::picture::decode_image;
use crate::picture::image_meta_of;
use vstd::utf8::decode_utf8;
use vstd::utf8::encode_utf8;
use vstd::utf8::encode_utf8_decode_utf8;
use vstd::utf8::encode_utf8_valid_utf8;
use vstd::utf8::valid_utf8;

/// The error a cover read runs into for a given native status code and MIME
/// bytes, if any: a nonzero status maps to its tag error, a zero status with
/// MIME bytes that are not valid UTF-8 to [`Error::Utf8Error`], and a zero
/// status with valid MIME bytes to no error at all.
pub open spec fn read_cover_error(status: int, mime_bytes: Seq<u8>) -> Option<Error> {
    if status != 0 {
        Some(Error::TagLibError(status_to_error(status)))
    } else if !valid_utf8(mime_bytes) {
        Some(Error::Utf8Error)
    } else {
        None
    }
}

/// Whether a byte sequence is accepted as a cover to write: exactly when it
/// decodes as an image.
pub open spec fn write_accepts(data: Seq<u8>) -> bool {
    image_meta_of(data) is Some
}

/// The model of a cover read: from the native status code and the two byte
/// regions copied out of native scratch memory, either the typed error of
/// [`read_cover_error`] or the picture — the bytes unchanged and the decoded
/// MIME string.
pub open spec fn read_cover_spec(status: int, data: Seq<u8>, mime_bytes: Seq<u8>) -> Result<
    (Seq<u8>, Seq<char>),
    Error,
> {
    match read_cover_error(status, mime_bytes) {
        Some(e) => Err(e),
        None => Ok((data, decode_utf8(mime_bytes))),
    }
}

/// The model of a cover write, up to the native call: bytes that do not
/// decode as an image are a decode error, and accepted bytes reach the
/// native writer unchanged, with their MIME string.
pub open spec fn write_cover_spec(data: Seq<u8>, mime: Seq<char>) -> Result<
    (Seq<u8>, Seq<char>),
    Error,
> {
    if write_accepts(data) {
        Ok((data, mime))
    } else {
        Err(Error::ImageError)
    }
}

/// An opened media file, seen from the verified side of the FFI boundary.
///
/// The unverified shell opens the path through the native library and hands
/// the resulting handle here as its address; from then on the handle is
/// exclusively owned by this value and released exactly once, through
/// [`File::release`], which can only be called on a file not yet released.
pub struct File {
    handle: usize,
    released: bool,
}

impl File {
    /// The address of the native handle this file owns.
    pub closed spec fn spec_handle(&self) -> usize {
        self.handle
    }

    /// Whether the native handle has already been given back for release.
    pub closed spec fn spec_released(&self) -> bool {
        self.released
    }

    /// Adopts the handle the native open call returned, given as its address.
    /// A null handle means the native library could not open or parse the
    /// path, and yields [`Error::InvalidFileName`]; any other handle yields a
    /// file that owns it and is not yet released.
    pub fn new(raw_handle: usize) -> (r: Result<File, Error>)
        ensures
            raw_handle == 0 ==> r == Err::<File, Error>(Error::InvalidFileName),
            raw_handle != 0 ==> (r matches Ok(f) && f.spec_handle() == raw_handle
                && !f.spec_released()),
    {
        if raw_handle == 0 {
            Err(Error::InvalidFileName)
        } else {
            Ok(File { handle: raw_handle, released: false })
        }
    }

    /// The address of the owned native handle, for the shell to pass to
    /// native calls.
    pub fn handle(&self) -> (r: usize)
        ensures
            r == self.spec_handle(),
    {
        self.handle
    }

    /// Whether the handle has already been given back for release.
    pub fn is_released(&self) -> (r: bool)
        ensures
            r == self.spec_released(),
    {
        self.released
    }

    /// Gives the owned handle back, exactly once, so the shell can free it:
    /// a released file cannot be released again, nor used for a read or
    /// write.
    pub fn release(&mut self) -> (r: usize)
        requires
            !old(self).spec_released(),
        ensures
            final(self).spec_released(),
            final(self).spec_handle() == old(self).spec_handle(),
            r == old(self).spec_handle(),
    {
        self.released = true;
        self.handle
    }

    /// Turns the raw outcome of the native cover read into an owned
    /// [`Picture`] or a typed error.
    ///
    /// The shell copies the native scratch buffer and MIME string out as
    /// `data` and `mime_bytes` before it frees them, and hands them here with
    /// the native status code. A nonzero status maps to its tag error; MIME
    /// bytes that are not valid UTF-8 to [`Error::Utf8Error`]; otherwise the
    /// picture holds `data` byte for byte and the decoded MIME string.
    pub fn read_cover(&self, status_code: i32, data: Vec<u8>, mime_bytes: Vec<u8>) -> (r: Result<
        Picture,
        Error,
    >)
        requires
            !self.spec_released(),
        ensures
            r is Ok <==> read_cover_spec(status_code as int, data@, mime_bytes@) is Ok,
            r matches Ok(p) ==> Ok::<(Seq<u8>, Seq<char>), Error>((p.data@, p.mime@))
                == read_cover_spec(status_code as int, data@, mime_bytes@),
            r matches Err(e) ==> read_cover_spec(status_code as int, data@, mime_bytes@) == Err::<
                (Seq<u8>, Seq<char>),
                Error,
            >(e),
    {
        if status_code != 0 {
            Err(Error::TagLibError(TagLibError::from_status_code(status_code)))
        } else {
            match bytes_to_string(mime_bytes) {
                Some(mime) => Ok(Picture { data, mime }),
                None => Err(Error::Utf8Error),
            }
        }
    }

    /// Validates and measures a cover before the native writer sees it.
    ///
    /// The bytes must decode as a real image; anything else is
    /// [`Error::ImageError`], and the native library is then never called, so
    /// the file's existing cover stays as it is. On success the returned
    /// [`Picture`] holds the caller's bytes and MIME type unchanged, and the
    /// [`PictureMeta`] holds exactly the measured width, height and bits per
    /// pixel; the shell passes both to the native writer.
    pub fn write_cover(&self, data: Vec<u8>, mime: String) -> (r: Result<
        (Picture, PictureMeta),
        Error,
    >)
        requires
            !self.spec_released(),
        ensures
            r is Ok <==> write_cover_spec(data@, mime@) is Ok,
            r matches Ok(pm) ==> (Ok::<(Seq<u8>, Seq<char>), Error>((pm.0.data@, pm.0.mime@))
                == write_cover_spec(data@, mime@) && Some((pm.1.width, pm.1.height, pm.1.depth))
                == image_meta_of(data@)),
            r matches Err(e) ==> write_cover_spec(data@, mime@) == Err::<
                (Seq<u8>, Seq<char>),
                Error,
            >(e),
    {
        match decode_image(&data) {
            Some((width, height, depth)) => {
                let meta = PictureMeta { width, height, depth };
                Ok((Picture { data, mime }, meta))
            },
            None => Err(Error::ImageError),
        }
    }
}

/// Turns the status code of the native write call into the adapter's result:
/// zero is success and never an error, and every nonzero code surfaces as
/// exactly the tag error it maps to.
pub fn write_status(status_code: i32) -> (r: Result<(), Error>)
    ensures
        r is Ok <==> status_code == 0,
        status_code != 0 ==> r == Err::<(), Error>(Error::TagLibError(
            status_to_error(status_code as int),
        )),
{
    if status_code == 0 {
        Ok(())
    } else {
        Err(Error::TagLibError(TagLibError::from_status_code(status_code)))
    }
}

/// Round trip of a cover through the adapter: a write of bytes that decode
/// as an image hands the native writer exactly the caller's bytes and MIME
/// string, and if the native library stores them faithfully — a later read
/// returns status zero, those same bytes, and the UTF-8 encoding of that
/// MIME string — then the read yields no error, byte-identical content, and
/// the same MIME string.
pub proof fn lemma_cover_round_trip(data: Seq<u8>, mime: Seq<char>)
    requires
        write_accepts(data),
    ensures
        write_cover_spec(data, mime) == Ok::<(Seq<u8>, Seq<char>), Error>((data, mime)),
        read_cover_spec(0, data, encode_utf8(mime)) == Ok::<(Seq<u8>, Seq<char>), Error>(
            (data, mime),
        ),
{
    broadcast use encode_utf8_valid_utf8, encode_utf8_decode_utf8;

}

} // verus!
