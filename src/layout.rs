//! The pixel layouts that can be quantized, and how they are read from a
//! decoded image's color type.

use image::{ColorType, ExtendedColorType};
use vstd::prelude::*;

verus! {

#[verifier::external_type_specification]
pub struct ExColorType(ColorType);

#[verifier::external_type_specification]
pub struct ExExtendedColorType(ExtendedColorType);

/// The four 8-bit layouts whose color channels can be quantized.
#[derive(Debug, Clone, Copy, PartialEq, Eq, Structural)]
pub enum TargetColors {
    /// One luma byte per pixel.
    L8,
    /// A luma byte, then an alpha byte.
    La8,
    /// Red, green and blue bytes.
    Rgb8,
    /// Red, green, blue and alpha bytes.
    Rgba8,
}

impl TargetColors {
    /// Bytes per pixel.
    pub open spec fn pixel_len(self) -> nat {
        match self {
            TargetColors::L8 => 1,
            TargetColors::La8 => 2,
            TargetColors::Rgb8 => 3,
            TargetColors::Rgba8 => 4,
        }
    }

    /// The length of the chunks the buffer is walked in when masking: a
    /// layout without alpha is walked byte by byte.
    pub open spec fn chunk_len(self) -> nat {
        match self {
            TargetColors::L8 | TargetColors::Rgb8 => 1,
            TargetColors::La8 => 2,
            TargetColors::Rgba8 => 4,
        }
    }

    /// How many leading bytes of each chunk are color; the rest is alpha.
    pub open spec fn color_len(self) -> nat {
        match self {
            TargetColors::L8 | TargetColors::Rgb8 | TargetColors::La8 => 1,
            TargetColors::Rgba8 => 3,
        }
    }

    /// Whether byte `i` of a buffer of `len` bytes is a color byte of a
    /// whole chunk. Bytes of a trailing partial chunk are never color bytes.
    pub open spec fn is_color_byte(self, len: nat, i: nat) -> bool {
        &&& i < len
        &&& i % self.chunk_len() < self.color_len()
        &&& i - i % self.chunk_len() + self.chunk_len() <= len
    }

    pub fn bytes_per_pixel(self) -> (r: u8)
        ensures
            r as nat == self.pixel_len(),
    {
        match self {
            TargetColors::L8 => 1,
            TargetColors::La8 => 2,
            TargetColors::Rgb8 => 3,
            TargetColors::Rgba8 => 4,
        }
    }

    /// The layout that a decoded color type maps to, if it is supported.
    pub open spec fn of_color_type(c: ColorType) -> Option<TargetColors> {
        match c {
            ColorType::L8 => Some(TargetColors::L8),
            ColorType::La8 => Some(TargetColors::La8),
            ColorType::Rgb8 => Some(TargetColors::Rgb8),
            ColorType::Rgba8 => Some(TargetColors::Rgba8),
            _ => None,
        }
    }

    /// Resolves a decoded color type to a layout; any other color type is
    /// handed back as the error.
    pub fn try_from(value: ColorType) -> (r: Result<TargetColors, ColorType>)
        ensures
            match Self::of_color_type(value) {
                Some(t) => r == Ok::<TargetColors, ColorType>(t),
                None => r == Err::<TargetColors, ColorType>(value),
            },
    {
        match value {
            ColorType::L8 => Ok(TargetColors::L8),
            ColorType::La8 => Ok(TargetColors::La8),
            ColorType::Rgb8 => Ok(TargetColors::Rgb8),
            ColorType::Rgba8 => Ok(TargetColors::Rgba8),
            value => Err(value),
        }
    }
}

impl From<TargetColors> for ExtendedColorType {
    /// The encoder's color type for a layout.
    fn from(value: TargetColors) -> (r: ExtendedColorType) {
        match value {
            TargetColors::L8 => ExtendedColorType::L8,
            TargetColors::La8 => ExtendedColorType::La8,
            TargetColors::Rgb8 => ExtendedColorType::Rgb8,
            TargetColors::Rgba8 => ExtendedColorType::Rgba8,
        }
    }
}

impl vstd::std_specs::convert::FromSpecImpl<TargetColors> for ExtendedColorType {
    open spec fn obeys_from_spec() -> bool {
        true
    }

    open spec fn from_spec(value: TargetColors) -> ExtendedColorType {
        match value {
            TargetColors::L8 => ExtendedColorType::L8,
            TargetColors::La8 => ExtendedColorType::La8,
            TargetColors::Rgb8 => ExtendedColorType::Rgb8,
            TargetColors::Rgba8 => ExtendedColorType::Rgba8,
        }
    }
}

} // verus!
