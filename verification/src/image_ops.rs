//! Choices made before an image operation is handed to the codec: how a
//! format is encoded, what a rotation angle means, and what a finished
//! operation reports to the list.

use vstd::prelude::*;
use crate::action::Action;
use crate::value::ImageStatus;

verus! {

/// The image file formats that can be named as a target.
#[derive(Debug, Clone, Copy, PartialEq, Eq, Hash, Structural)]
pub enum ImageFormat {
    Png,
    Jpeg,
    Gif,
    WebP,
    Pnm,
    Tiff,
    Tga,
    Dds,
    Bmp,
    Ico,
    Hdr,
    OpenExr,
    Farbfeld,
    Avif,
    Qoi,
    Pcx,
}

/// How the pixels are laid out when they are handed to an encoder.
#[derive(Debug, Clone, Copy, PartialEq, Eq, Structural)]
pub enum PixelLayout {
    /// Three channels of eight bits.
    Rgb8,
    /// Four channels of eight bits.
    Rgba8,
    /// Four channels, declared as 32-bit floats.
    Rgba32F,
}

/// An encoder together with its settings.
#[derive(Debug, Clone, Copy, PartialEq, Eq, Structural)]
pub enum Encoding {
    /// JPEG at the given quality.
    Jpeg { quality: u8 },
    /// AVIF with the encoder's defaults.
    Avif,
    /// PNG with the best compression and adaptive filtering.
    PngBest,
    /// Lossless WebP.
    WebPLossless,
    /// GIF at the given encoder speed.
    Gif { speed: i32 },
    /// OpenEXR.
    OpenExr,
}

/// The target format has no encoder here.
#[derive(Debug, Clone, Copy, PartialEq, Eq, Structural)]
pub struct UnsupportedFormat {
    pub format: ImageFormat,
}

/// The GIF encoder speed for a quality: three for every full ten.
pub open spec fn gif_speed(quality: u8) -> int {
    (quality / 10) * 3
}

/// The encoding of `format` at `quality`, for the six formats that can
/// be written.
pub open spec fn encoding_spec(format: ImageFormat, quality: u8) -> Option<Encoding> {
    match format {
        ImageFormat::Jpeg => Some(Encoding::Jpeg { quality }),
        ImageFormat::Avif => Some(Encoding::Avif),
        ImageFormat::Png => Some(Encoding::PngBest),
        ImageFormat::WebP => Some(Encoding::WebPLossless),
        ImageFormat::Gif => Some(Encoding::Gif { speed: gif_speed(quality) as i32 }),
        ImageFormat::OpenExr => Some(Encoding::OpenExr),
        _ => None,
    }
}

/// Chooses encoder and settings for writing `format` at `quality`; a
/// format that cannot be written is handed back as the error.
pub fn encoding_for(format: ImageFormat, quality: u8) -> (chosen: Result<
    Encoding,
    UnsupportedFormat,
>)
    ensures
        chosen == (match encoding_spec(format, quality) {
            Some(encoding) => Ok::<Encoding, UnsupportedFormat>(encoding),
            None => Err(UnsupportedFormat { format }),
        }),
{
    match format {
        ImageFormat::Jpeg => Ok(Encoding::Jpeg { quality }),
        ImageFormat::Avif => Ok(Encoding::Avif),
        ImageFormat::Png => Ok(Encoding::PngBest),
        ImageFormat::WebP => Ok(Encoding::WebPLossless),
        ImageFormat::Gif => {
            let tens: u8 = quality / 10;
            let speed: u8 = tens * 3;
            Ok(Encoding::Gif { speed: speed as i32 })
        },
        ImageFormat::OpenExr => Ok(Encoding::OpenExr),
        _ => Err(UnsupportedFormat { format }),
    }
}

impl Encoding {
    /// The pixel layout that this encoder is fed with.
    pub open spec fn layout_spec(self) -> PixelLayout {
        match self {
            Encoding::Jpeg { .. } => PixelLayout::Rgb8,
            Encoding::OpenExr => PixelLayout::Rgba32F,
            _ => PixelLayout::Rgba8,
        }
    }

    /// The pixel layout that this encoder is fed with.
    pub fn layout(&self) -> (layout: PixelLayout)
        ensures
            layout == self.layout_spec(),
    {
        match self {
            Encoding::Jpeg { .. } => PixelLayout::Rgb8,
            Encoding::OpenExr => PixelLayout::Rgba32F,
            _ => PixelLayout::Rgba8,
        }
    }
}

/// A rotation by a multiple of a quarter turn, clockwise.
#[derive(Debug, Clone, Copy, PartialEq, Eq, Structural)]
pub enum Rotation {
    /// 90 degrees.
    Quarter,
    /// 180 degrees.
    Half,
    /// 270 degrees.
    ThreeQuarters,
}

/// The angle is none of 90, 180 and 270.
#[derive(Debug, Clone, Copy, PartialEq, Eq, Structural)]
pub struct InvalidAngle {
    pub degrees: i32,
}

/// Reads an angle in degrees as a rotation; only 90, 180 and 270 are
/// rotations, every other angle is handed back as the error.
pub fn rotation_for(degrees: i32) -> (rotation: Result<Rotation, InvalidAngle>)
    ensures
        rotation == (if degrees == 90 {
            Ok::<Rotation, InvalidAngle>(Rotation::Quarter)
        } else if degrees == 180 {
            Ok(Rotation::Half)
        } else if degrees == 270 {
            Ok(Rotation::ThreeQuarters)
        } else {
            Err(InvalidAngle { degrees })
        }),
{
    if degrees == 90 {
        Ok(Rotation::Quarter)
    } else if degrees == 180 {
        Ok(Rotation::Half)
    } else if degrees == 270 {
        Ok(Rotation::ThreeQuarters)
    } else {
        Err(InvalidAngle { degrees })
    }
}

/// The command that reports how the operation on the image at `index`
/// ended: `Completed` on success, `Error` with the message on failure.
pub fn completion_action(index: usize, outcome: Result<(), String>) -> (action: Action)
    ensures
        action == (Action::UpdateImageStatus {
            index,
            status: match outcome {
                Ok(_) => ImageStatus::Completed,
                Err(message) => ImageStatus::Error(message),
            },
        }),
{
    let status = match outcome {
        Ok(_) => ImageStatus::Completed,
        Err(message) => ImageStatus::Error(message),
    };
    Action::UpdateImageStatus { index, status }
}

} // verus!
