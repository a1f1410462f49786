//! The choices made when images are turned into WebP files.

use vstd::prelude::*;
use vstd::string::*;
use crate::text::{lowercased, same_text, to_lowercase, trim, trimmed};

verus! {

/// The quality, out of a hundred, at which images are encoded with loss.
pub const LOSSY_QUALITY: u8 = 95;

/// How an image is encoded.
#[derive(Debug, Clone, Copy, PartialEq, Eq)]
pub enum WebpEncoding {
    /// Without loss, from pixels with an alpha channel.
    LosslessRgba,
    /// Without loss, from pixels without an alpha channel.
    LosslessRgb,
    /// With loss, at this quality out of a hundred, from pixels without an
    /// alpha channel.
    LossyRgb { quality: u8 },
}

/// A file extension, in lower case, of an image that is converted.
pub open spec fn is_image_extension(lower: Seq<char>) -> bool {
    lower == "jpg"@ || lower == "jpeg"@ || lower == "png"@
}

/// A file extension, in lower case, of a PNG image.
pub open spec fn is_png_extension(lower: Seq<char>) -> bool {
    lower == "png"@
}

/// The encoding of an image, by whether it is a PNG and has an alpha channel:
/// a PNG is encoded without loss, with its alpha channel if it has one;
/// anything else with loss, at the given quality.
pub open spec fn encoding_for(png: bool, has_alpha: bool, quality: u8) -> WebpEncoding {
    if png {
        if has_alpha {
            WebpEncoding::LosslessRgba
        } else {
            WebpEncoding::LosslessRgb
        }
    } else {
        WebpEncoding::LossyRgb { quality }
    }
}

/// Whether a file with this extension is converted: the JPEG and PNG
/// extensions, in any case of letters.
pub fn is_convertible(extension: &str) -> (convertible: bool)
    ensures
        convertible == is_image_extension(lowercased(extension@)),
{
    let lower = to_lowercase(extension);
    same_text(lower.as_str(), "jpg") || same_text(lower.as_str(), "jpeg") || same_text(
        lower.as_str(),
        "png",
    )
}

/// Whether a file with this extension is a PNG, in any case of letters.
pub fn is_png(extension: &str) -> (png: bool)
    ensures
        png == is_png_extension(lowercased(extension@)),
{
    let lower = to_lowercase(extension);
    same_text(lower.as_str(), "png")
}

/// Whether the user asked for the source files to be deleted once they are
/// converted: only the answer `y`, in either case and with any white space
/// around it, asks for that.
pub fn wants_deletion(input: &str) -> (delete: bool)
    ensures
        delete == (lowercased(trimmed(input@)) == "y"@),
{
    let lower = to_lowercase(trim(input));
    same_text(lower.as_str(), "y")
}

/// A converter of images to WebP.
#[derive(Debug, Clone, Copy, PartialEq, Eq)]
pub struct ConvertImage {
    quality: u8,
}

impl ConvertImage {
    /// The quality, out of a hundred, of the encodings with loss.
    pub closed spec fn quality(&self) -> u8 {
        self.quality
    }

    /// A converter that encodes with loss at [`LOSSY_QUALITY`].
    pub fn new() -> (converter: Self)
        ensures
            converter.quality() == LOSSY_QUALITY,
    {
        ConvertImage { quality: LOSSY_QUALITY }
    }

    /// Chooses the encoding of an image from the extension of its file, if it
    /// has one, and from whether its pixels have an alpha channel.
    pub fn choose_encoding(&self, extension: Option<&str>, has_alpha: bool) -> (encoding:
        WebpEncoding)
        ensures
            encoding == encoding_for(
                extension matches Some(text) && is_png_extension(lowercased(text@)),
                has_alpha,
                self.quality(),
            ),
    {
        let png = match extension {
            Some(text) => is_png(text),
            None => false,
        };
        if png {
            if has_alpha {
                WebpEncoding::LosslessRgba
            } else {
                WebpEncoding::LosslessRgb
            }
        } else {
            WebpEncoding::LossyRgb { quality: self.quality }
        }
    }
}

impl Default for ConvertImage {
    fn default() -> (converter: Self)
        ensures
            converter.quality() == LOSSY_QUALITY,
    {
        ConvertImage::new()
    }
}

} // verus!
