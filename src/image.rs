//! The decoded-image record that both decode paths produce.

use vstd::prelude::*;

verus! {

/// The color filter array of a sensor, as far as the decoder exposes it.
#[derive(Debug, Clone)]
pub struct CfaInfo {
    /// The repeating pattern written as a string, such as "RGGB".
    pub name: String,
    /// Width of the repeating pattern.
    pub width: usize,
    /// Height of the repeating pattern.
    pub height: usize,
}

/// The samples of an image: integers for most formats, single-precision
/// floats (held as bit patterns) for some.
#[derive(Debug, Clone)]
pub enum PixelData {
    Integer(Vec<u16>),
    Float(Vec<u32>),
}

/// Number of samples held, whichever kind they are.
pub open spec fn sample_count(d: PixelData) -> nat {
    match d {
        PixelData::Integer(v) => v@.len(),
        PixelData::Float(v) => v@.len(),
    }
}

impl PixelData {
    /// Number of samples held, whichever kind they are.
    pub fn len(&self) -> (r: usize)
        ensures
            r == sample_count(*self),
    {
        match self {
            PixelData::Integer(v) => v.len(),
            PixelData::Float(v) => v.len(),
        }
    }
}

/// One decoded RAW file. Floating-point attributes are held as the bit
/// patterns of the `f32` values that the decoder produced.
#[derive(Debug, Clone)]
pub struct DecodedImage {
    /// Camera make as written in the file.
    pub make: String,
    /// Camera model as written in the file.
    pub model: String,
    /// Make normalized to a short, consistent name.
    pub clean_make: String,
    /// Model normalized to a short, consistent name.
    pub clean_model: String,
    /// Width of the full image in pixels.
    pub width: usize,
    /// Height of the full image in pixels.
    pub height: usize,
    /// Components per pixel.
    pub cpp: usize,
    /// The XYZ-to-camera matrix, four rows of three entries, row by row.
    pub xyz_to_cam: Vec<u32>,
    /// The color filter array.
    pub cfa: CfaInfo,
    /// Crop margins: top, right, bottom, left.
    pub crops: Vec<usize>,
    /// Orientation as the EXIF orientation number (0 when unknown).
    pub orientation: u16,
    /// White-balance coefficients; not-a-number marks one that does not apply.
    pub wb_coeffs: Vec<u32>,
    /// The samples: empty or a single placeholder after a metadata-only decode.
    pub data: PixelData,
}

} // verus!
