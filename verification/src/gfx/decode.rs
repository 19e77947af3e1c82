//! Decoding of image files, done by the `image` crate.

use vstd::prelude::*;

verus! {

/// The kinds of failure that the `image` crate tells apart.
#[derive(Clone, Copy, Debug, PartialEq, Eq, Hash, Structural)]
pub enum ImageErrorKind {
    /// The bytes are not a well-formed file of a known format.
    Decoding,
    /// The picture cannot be written in the format asked for.
    Encoding,
    /// An argument was out of range.
    Parameter,
    /// Decoding would have taken more memory than allowed.
    Limits,
    /// The format, or a feature of it, is not supported.
    Unsupported,
    /// The bytes ended, or could not be read.
    Io,
}

/// Why a picture could not be loaded.
#[derive(Debug, PartialEq, Eq)]
pub struct ImageLoadError {
    pub kind: ImageErrorKind,
    /// What the decoder says of the failure
    pub message: String,
}

/// Calls `image::load_from_memory` on `mem`. Of a picture it takes `width()`,
/// `height()` and the bytes of `into_rgba8().into_raw()`; of an
/// `image::ImageError` its variant and its text.
///
/// Trusted: that the buffer of a picture holds at least four bytes for each
/// of its `width * height` pixels. Whether the bytes decode, to which
/// picture, and with which error, is left open: the decoder also goes by the
/// decoding hooks that are registered in the process.
#[verifier::external_body]
pub(crate) fn load_rgba8(mem: &[u8]) -> (r: Result<(u32, u32, Vec<u8>), ImageLoadError>)
    ensures
        r matches Ok(t) ==> t.2@.len() >= 4 * t.0 * t.1,
{
    match image::load_from_memory(mem) {
        Ok(img) => Ok((img.width(), img.height(), img.into_rgba8().into_raw())),
        Err(e) => Err(ImageLoadError {
            message: e.to_string(),
            kind: match e {
                image::ImageError::Decoding(_) => ImageErrorKind::Decoding,
                image::ImageError::Encoding(_) => ImageErrorKind::Encoding,
                image::ImageError::Parameter(_) => ImageErrorKind::Parameter,
                image::ImageError::Limits(_) => ImageErrorKind::Limits,
                image::ImageError::Unsupported(_) => ImageErrorKind::Unsupported,
                image::ImageError::IoError(_) => ImageErrorKind::Io,
            },
        }),
    }
}

} // verus!
