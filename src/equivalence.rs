//! Whether two decodes of one file agree on everything but the pixels.

use vstd::prelude::*;
use crate::floats::{coeffs_eq, f32_slices_eq};
use crate::image::{sample_count, DecodedImage};

verus! {

/// An attribute that both decode paths must report identically.
#[derive(Debug, Clone, Copy, PartialEq, Eq, Structural)]
pub enum Field {
    Make,
    Model,
    CleanMake,
    CleanModel,
    Width,
    Height,
    Cpp,
    XyzToCam,
    Cfa,
    Crops,
    Orientation,
    WbCoeffs,
}

/// What makes a pair of decodes inconsistent.
#[derive(Debug, Clone, Copy, PartialEq, Eq, Structural)]
pub enum Inconsistency {
    /// The two decodes disagree on this attribute.
    Metadata(Field),
    /// The metadata-only decode holds more than one sample.
    PixelVolume(usize),
}

/// Whether `full` and `fast` agree on attribute `f`: exactly, except for the
/// white-balance coefficients, where not-a-number matches not-a-number.
pub open spec fn field_eq(full: DecodedImage, fast: DecodedImage, f: Field) -> bool {
    match f {
        Field::Make => full.make@ == fast.make@,
        Field::Model => full.model@ == fast.model@,
        Field::CleanMake => full.clean_make@ == fast.clean_make@,
        Field::CleanModel => full.clean_model@ == fast.clean_model@,
        Field::Width => full.width == fast.width,
        Field::Height => full.height == fast.height,
        Field::Cpp => full.cpp == fast.cpp,
        Field::XyzToCam => full.xyz_to_cam@ == fast.xyz_to_cam@,
        Field::Cfa => {
            &&& full.cfa.name@ == fast.cfa.name@
            &&& full.cfa.width == fast.cfa.width
            &&& full.cfa.height == fast.cfa.height
        },
        Field::Crops => full.crops@ == fast.crops@,
        Field::Orientation => full.orientation == fast.orientation,
        Field::WbCoeffs => coeffs_eq(full.wb_coeffs@, fast.wb_coeffs@),
    }
}

/// The two decodes agree on every attribute but the pixels.
pub open spec fn metadata_eq(full: DecodedImage, fast: DecodedImage) -> bool {
    &&& field_eq(full, fast, Field::Make)
    &&& field_eq(full, fast, Field::Model)
    &&& field_eq(full, fast, Field::CleanMake)
    &&& field_eq(full, fast, Field::CleanModel)
    &&& field_eq(full, fast, Field::Width)
    &&& field_eq(full, fast, Field::Height)
    &&& field_eq(full, fast, Field::Cpp)
    &&& field_eq(full, fast, Field::XyzToCam)
    &&& field_eq(full, fast, Field::Cfa)
    &&& field_eq(full, fast, Field::Crops)
    &&& field_eq(full, fast, Field::Orientation)
    &&& field_eq(full, fast, Field::WbCoeffs)
}

/// The first attribute, in the order of `Field`, on which the decodes disagree.
pub open spec fn first_mismatch(full: DecodedImage, fast: DecodedImage) -> Option<Field> {
    if !field_eq(full, fast, Field::Make) {
        Some(Field::Make)
    } else if !field_eq(full, fast, Field::Model) {
        Some(Field::Model)
    } else if !field_eq(full, fast, Field::CleanMake) {
        Some(Field::CleanMake)
    } else if !field_eq(full, fast, Field::CleanModel) {
        Some(Field::CleanModel)
    } else if !field_eq(full, fast, Field::Width) {
        Some(Field::Width)
    } else if !field_eq(full, fast, Field::Height) {
        Some(Field::Height)
    } else if !field_eq(full, fast, Field::Cpp) {
        Some(Field::Cpp)
    } else if !field_eq(full, fast, Field::XyzToCam) {
        Some(Field::XyzToCam)
    } else if !field_eq(full, fast, Field::Cfa) {
        Some(Field::Cfa)
    } else if !field_eq(full, fast, Field::Crops) {
        Some(Field::Crops)
    } else if !field_eq(full, fast, Field::Orientation) {
        Some(Field::Orientation)
    } else if !field_eq(full, fast, Field::WbCoeffs) {
        Some(Field::WbCoeffs)
    } else {
        None
    }
}

/// The outcome owed for a pair of decodes: the first disagreeing attribute,
/// else a metadata-only decode that holds more than one sample, else success.
pub open spec fn pair_outcome(full: DecodedImage, fast: DecodedImage) -> Result<(), Inconsistency> {
    match first_mismatch(full, fast) {
        Some(f) => Err(Inconsistency::Metadata(f)),
        None => if sample_count(fast.data) <= 1 {
            Ok(())
        } else {
            Err(Inconsistency::PixelVolume(sample_count(fast.data) as usize))
        },
    }
}

fn u32s_eq(a: &[u32], b: &[u32]) -> (r: bool)
    ensures
        r == (a@ == b@),
{
    if a.len() != b.len() {
        return false;
    }
    let mut i: usize = 0;
    while i < a.len()
        invariant
            a@.len() == b@.len(),
            0 <= i <= a@.len(),
            forall|j: int| 0 <= j < i ==> a@[j] == b@[j],
        decreases a@.len() - i,
    {
        if a[i] != b[i] {
            return false;
        }
        i = i + 1;
    }
    assert(a@ =~= b@);
    true
}

fn usizes_eq(a: &[usize], b: &[usize]) -> (r: bool)
    ensures
        r == (a@ == b@),
{
    if a.len() != b.len() {
        return false;
    }
    let mut i: usize = 0;
    while i < a.len()
        invariant
            a@.len() == b@.len(),
            0 <= i <= a@.len(),
            forall|j: int| 0 <= j < i ==> a@[j] == b@[j],
        decreases a@.len() - i,
    {
        if a[i] != b[i] {
            return false;
        }
        i = i + 1;
    }
    assert(a@ =~= b@);
    true
}

/// Whether `full` and `fast` agree on attribute `f`.
pub fn field_matches(full: &DecodedImage, fast: &DecodedImage, f: Field) -> (r: bool)
    ensures
        r == field_eq(*full, *fast, f),
{
    match f {
        Field::Make => full.make == fast.make,
        Field::Model => full.model == fast.model,
        Field::CleanMake => full.clean_make == fast.clean_make,
        Field::CleanModel => full.clean_model == fast.clean_model,
        Field::Width => full.width == fast.width,
        Field::Height => full.height == fast.height,
        Field::Cpp => full.cpp == fast.cpp,
        Field::XyzToCam => u32s_eq(full.xyz_to_cam.as_slice(), fast.xyz_to_cam.as_slice()),
        Field::Cfa => {
            full.cfa.name == fast.cfa.name && full.cfa.width == fast.cfa.width
                && full.cfa.height == fast.cfa.height
        },
        Field::Crops => usizes_eq(full.crops.as_slice(), fast.crops.as_slice()),
        Field::Orientation => full.orientation == fast.orientation,
        Field::WbCoeffs => f32_slices_eq(full.wb_coeffs.as_slice(), fast.wb_coeffs.as_slice()),
    }
}

/// The first attribute on which the two decodes disagree, if any.
pub fn find_mismatch(full: &DecodedImage, fast: &DecodedImage) -> (r: Option<Field>)
    ensures
        r == first_mismatch(*full, *fast),
        r is None <==> metadata_eq(*full, *fast),
{
    let order = [
        Field::Make,
        Field::Model,
        Field::CleanMake,
        Field::CleanModel,
        Field::Width,
        Field::Height,
        Field::Cpp,
        Field::XyzToCam,
        Field::Cfa,
        Field::Crops,
        Field::Orientation,
        Field::WbCoeffs,
    ];
    let mut i: usize = 0;
    while i < 12
        invariant
            0 <= i <= 12,
            order@ == seq![
                Field::Make,
                Field::Model,
                Field::CleanMake,
                Field::CleanModel,
                Field::Width,
                Field::Height,
                Field::Cpp,
                Field::XyzToCam,
                Field::Cfa,
                Field::Crops,
                Field::Orientation,
                Field::WbCoeffs,
            ],
            forall|j: int| 0 <= j < i ==> field_eq(*full, *fast, #[trigger] order@[j]),
        decreases 12 - i,
    {
        let f = order[i];
        if !field_matches(full, fast, f) {
            assert(forall|j: int| 0 <= j < i ==> field_eq(*full, *fast, #[trigger] order@[j]));
            return Some(f);
        }
        i = i + 1;
    }
    assert(field_eq(*full, *fast, order@[11]));
    None
}

/// Whether the two decodes agree on every attribute but the pixels.
pub fn equivalent(full: &DecodedImage, fast: &DecodedImage) -> (r: bool)
    ensures
        r == metadata_eq(*full, *fast),
{
    find_mismatch(full, fast).is_none()
}

/// Checks a full decode against a metadata-only decode of the same file: the
/// first attribute on which they disagree, else an error when the
/// metadata-only decode holds more than one sample.
pub fn verify_pair(full: &DecodedImage, fast: &DecodedImage) -> (r: Result<(), Inconsistency>)
    ensures
        r == pair_outcome(*full, *fast),
        r is Ok <==> metadata_eq(*full, *fast) && sample_count(fast.data) <= 1,
{
    match find_mismatch(full, fast) {
        Some(f) => Err(Inconsistency::Metadata(f)),
        None => {
            let n = fast.data.len();
            if n <= 1 {
                Ok(())
            } else {
                Err(Inconsistency::PixelVolume(n))
            }
        },
    }
}

} // verus!
