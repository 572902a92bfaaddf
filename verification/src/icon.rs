//! Window-icon preparation.
//!
//! The window icon starts as an embedded PNG.  Decoding it is delegated to
//! the `image` crate; everything after the decode — checking that the pixel
//! buffer really holds one 4-byte RGBA pixel per cell, and packaging it for
//! the windowing stack — is done and proved here.  Failures are surfaced as
//! values rather than swallowed.

use vstd::arithmetic::mul::lemma_mul_upper_bound;
use vstd::prelude::*;

verus! {

/// What decoding a PNG byte stream yields: nothing for a malformed stream,
/// else the image's width, height, and its pixels as rows of 4-byte RGBA
/// values.  Decoding depends on the bytes alone.
pub uninterp spec fn png_rgba_of(bytes: Seq<u8>) -> Option<(u32, u32, Seq<u8>)>;

/// Relies on `image::load_from_memory_with_format` with the PNG format and
/// `DynamicImage::into_rgba8`: a pure decode of the byte stream, whose RGBA
/// buffer holds exactly width × height 4-byte pixels.
#[verifier::external_body]
fn decode_png_rgba(bytes: &[u8]) -> (r: Option<(u32, u32, Vec<u8>)>)
    ensures
        r is Some <==> png_rgba_of(bytes@) is Some,
        r matches Some(t) ==> png_rgba_of(bytes@) == Some((t.0, t.1, t.2@)),
        r matches Some(t) ==> t.2@.len() == 4 * t.0 * t.1,
{
    match image::load_from_memory_with_format(bytes, image::ImageFormat::Png) {
        Ok(decoded) => {
            let rgba = decoded.into_rgba8();
            let width = rgba.width();
            let height = rgba.height();
            Some((width, height, rgba.into_raw()))
        },
        Err(_) => None,
    }
}

/// An icon ready for the windowing stack: dimensions and a matching RGBA
/// pixel buffer.
#[derive(Clone, Debug)]
pub struct IconPixels {
    pub width: u32,
    pub height: u32,
    pub rgba: Vec<u8>,
}

impl IconPixels {
    /// The buffer holds exactly one 4-byte pixel per cell.
    pub open spec fn spec_well_formed(self) -> bool {
        self.rgba@.len() == 4 * self.width * self.height
    }
}

/// Why an icon could not be prepared.
#[derive(Clone, Copy, Debug, PartialEq, Eq, Structural)]
pub enum IconError {
    /// The byte stream is not a well-formed PNG.
    Decode,
    /// The pixel buffer does not hold width × height 4-byte pixels.
    PixelCount,
}

/// Packages an RGBA buffer as an icon, accepting it exactly when it holds
/// one 4-byte pixel per cell of the claimed dimensions.
pub fn icon_from_rgba(width: u32, height: u32, rgba: Vec<u8>) -> (r: Result<IconPixels, IconError>)
    ensures
        r is Ok <==> rgba@.len() == 4 * width * height,
        r matches Ok(icon) ==> icon == (IconPixels { width, height, rgba }),
        r matches Ok(icon) ==> icon.spec_well_formed(),
        r matches Err(e) ==> e == IconError::PixelCount,
{
    proof {
        lemma_mul_upper_bound(
            4 * (width as int),
            4 * (0xffff_ffff as int),
            height as int,
            0xffff_ffff as int,
        );
    }
    let expected: u128 = 4u128 * (width as u128) * (height as u128);
    if (rgba.len() as u128) == expected {
        Ok(IconPixels { width, height, rgba })
    } else {
        Err(IconError::PixelCount)
    }
}

/// Decodes a PNG byte stream and packages it as a window icon.  Succeeds
/// exactly when the stream decodes; the decoded buffer always has the
/// pixel count its dimensions demand, so no further failure is possible.
pub fn prepare_window_icon(bytes: &[u8]) -> (r: Result<IconPixels, IconError>)
    ensures
        r is Ok <==> png_rgba_of(bytes@) is Some,
        r matches Ok(icon) ==> png_rgba_of(bytes@) == Some((icon.width, icon.height, icon.rgba@)),
        r matches Ok(icon) ==> icon.spec_well_formed(),
        r matches Err(e) ==> e == IconError::Decode,
{
    match decode_png_rgba(bytes) {
        None => Err(IconError::Decode),
        Some((width, height, rgba)) => {
            match icon_from_rgba(width, height, rgba) {
                Ok(icon) => Ok(icon),
                Err(_) => {
                    // A decoded buffer always matches its dimensions, so
                    // this arm cannot be reached.
                    proof {
                        assert(false);
                    }
                    Err(IconError::Decode)
                },
            }
        },
    }
}

} // verus!
