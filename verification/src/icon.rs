//! Window icons as RGBA pixels: from pixels given in base64, and from the
//! bytes of an image file.

use crate::encoding::{base64_decoded, decode, decoded_or_empty};
use crate::options::{ByteIcon, Icon};
use image::ImageError;
use vstd::prelude::*;

verus! {

/// `image::ImageError`, taken as it is: only that decoding failed is read
/// from it.
#[verifier::external_type_specification]
#[verifier::external_body]
pub struct ExImageError(ImageError);

/// The pixels that the `image` crate's built-in decoders read from the
/// bytes of an image file, as RGBA with eight bits a channel, with the width
/// and the height of the image; nothing where they read none. The format is
/// told by the signature at the start of the bytes.
pub uninterp spec fn image_rgba(file: Seq<u8>) -> Option<(Seq<u8>, u32, u32)>;

/// Calls `image::guess_format` and `image::load_from_memory_with_format`,
/// and on the image `to_rgba8`, `dimensions` and `into_raw`. The contract
/// claims that the outcome depends on the bytes alone: this way of loading
/// looks at the built-in signatures and decoders only, never at the hooks
/// that a process may have registered with the crate.
#[verifier::external_body]
fn load_rgba(file: &[u8]) -> (loaded: Result<(Vec<u8>, u32, u32), ImageError>)
    ensures
        match loaded {
            Ok(found) => image_rgba(file@) == Some((found.0@, found.1, found.2)),
            Err(_) => image_rgba(file@) is None,
        },
{
    let format = image::guess_format(file)?;
    let pixels = image::load_from_memory_with_format(file, format)?.to_rgba8();
    let (width, height) = pixels.dimensions();
    Ok((pixels.into_raw(), width, height))
}

/// Why bytes are no icon.
#[derive(Debug, Clone, Copy, PartialEq, Eq, Structural)]
pub enum IconError {
    /// The width or the height is 0.
    DimensionsZero,
    /// The bytes are not a whole number of pixels of four bytes each.
    ByteCountNotDivisibleBy4,
    /// There are not as many pixels as the width times the height.
    DimensionsVsPixelCount,
    /// The bytes are no image that can be decoded.
    Undecodable,
}

/// An icon: `width` times `height` pixels of four bytes each, row by row.
#[derive(Debug, Clone)]
pub struct RgbaIcon {
    pub rgba: Vec<u8>,
    pub width: u32,
    pub height: u32,
}

impl RgbaIcon {
    /// The bytes make up exactly the pixels of a picture that is not empty.
    pub open spec fn well_formed(&self) -> bool {
        checked(self.rgba@, self.width, self.height) is Ok
    }
}

/// Whether bytes are the pixels of an icon of the given width and height,
/// and if not, what is wrong with them.
pub open spec fn checked(rgba: Seq<u8>, width: u32, height: u32) -> Result<(), IconError> {
    if width == 0 || height == 0 {
        Err(IconError::DimensionsZero)
    } else if rgba.len() % 4 != 0 {
        Err(IconError::ByteCountNotDivisibleBy4)
    } else if rgba.len() / 4 != width * height {
        Err(IconError::DimensionsVsPixelCount)
    } else {
        Ok(())
    }
}

/// The icon that decoded pixels make, or the reason why they make none.
pub open spec fn icon_of(pixels: Option<(Seq<u8>, u32, u32)>) -> Result<
    (Seq<u8>, u32, u32),
    IconError,
> {
    match pixels {
        Some((rgba, width, height)) => match checked(rgba, width, height) {
            Ok(()) => Ok((rgba, width, height)),
            Err(error) => Err(error),
        },
        None => Err(IconError::Undecodable),
    }
}

/// Makes an icon of pixels, once they are found to fit the width and the
/// height.
pub fn check_rgba(rgba: Vec<u8>, width: u32, height: u32) -> (icon: Result<RgbaIcon, IconError>)
    ensures
        match icon {
            Ok(made) => checked(rgba@, width, height) is Ok && made.rgba@ == rgba@ && made.width
                == width && made.height == height && made.well_formed(),
            Err(error) => checked(rgba@, width, height) == Err::<(), IconError>(error),
        },
{
    if width == 0 || height == 0 {
        return Err(IconError::DimensionsZero);
    }
    if rgba.len() % 4 != 0 {
        return Err(IconError::ByteCountNotDivisibleBy4);
    }
    let pixels: u64 = (rgba.len() / 4) as u64;
    assert(width * height <= u64::MAX) by (nonlinear_arith)
        requires
            width <= u32::MAX,
            height <= u32::MAX,
    ;
    let wanted: u64 = (width as u64) * (height as u64);
    if pixels != wanted {
        return Err(IconError::DimensionsVsPixelCount);
    }
    Ok(RgbaIcon { rgba, width, height })
}

/// What was decoded from an image file, as plain values.
pub open spec fn pixels_of(pixels: Option<(Vec<u8>, u32, u32)>) -> Option<(Seq<u8>, u32, u32)> {
    match pixels {
        Some((rgba, width, height)) => Some((rgba@, width, height)),
        None => None,
    }
}

/// Makes an icon of what was decoded from an image file.
pub fn icon_from_pixels(pixels: Option<(Vec<u8>, u32, u32)>) -> (icon: Result<RgbaIcon, IconError>)
    ensures
        match icon {
            Ok(made) => icon_of(pixels_of(pixels)) == Ok::<(Seq<u8>, u32, u32), IconError>(
                (made.rgba@, made.width, made.height),
            ) && made.well_formed(),
            Err(error) => icon_of(pixels_of(pixels)) == Err::<(Seq<u8>, u32, u32), IconError>(
                error,
            ),
        },
{
    match pixels {
        Some((rgba, width, height)) => check_rgba(rgba, width, height),
        None => Err(IconError::Undecodable),
    }
}

impl ByteIcon {
    /// The icon that the pixels given in base64 make. Text that is no base64
    /// stands for no pixels at all.
    pub fn to_rgba(&self) -> (icon: Result<RgbaIcon, IconError>)
        ensures
            match icon {
                Ok(made) => made.rgba@ == decoded_or_empty(base64_decoded(self.rgba@))
                    && made.width == self.width && made.height == self.height
                    && made.well_formed(),
                Err(error) => checked(
                    decoded_or_empty(base64_decoded(self.rgba@)),
                    self.width,
                    self.height,
                ) == Err::<(), IconError>(error),
            },
    {
        let rgba = match decode(self.rgba.as_str()) {
            Some(bytes) => bytes,
            None => Vec::new(),
        };
        check_rgba(rgba, self.width, self.height)
    }
}

impl Icon {
    /// The icon that the image file at the path holds, given the bytes of
    /// that file.
    pub fn to_icon(&self, file: &[u8]) -> (icon: Result<RgbaIcon, IconError>)
        ensures
            match icon {
                Ok(made) => icon_of(image_rgba(file@)) == Ok::<(Seq<u8>, u32, u32), IconError>(
                    (made.rgba@, made.width, made.height),
                ) && made.well_formed(),
                Err(error) => icon_of(image_rgba(file@)) == Err::<
                    (Seq<u8>, u32, u32),
                    IconError,
                >(error),
            },
    {
        match load_rgba(file) {
            Ok(found) => icon_from_pixels(Some(found)),
            Err(_) => icon_from_pixels(None),
        }
    }
}

} // verus!
