//! The procedure run on each file: a warm-up decode, a timed full decode, a
//! timed metadata-only decode, and the consistency check of the two results.

use vstd::prelude::*;
use crate::engine::{
    decode_full, decode_metadata_only, full_decode_ok, metadata_decode_ok, DecodeError,
};
use crate::equivalence::{metadata_eq, pair_outcome, verify_pair, Inconsistency};
use crate::image::{sample_count, DecodedImage};

verus! {

#[verifier::external_type_specification]
#[verifier::external_body]
pub struct ExInstant(std::time::Instant);

/// Relies on std::time::Instant::now: a reading of the monotonic clock.
#[verifier::external_body]
fn clock_now() -> std::time::Instant {
    std::time::Instant::now()
}

/// Relies on std::time::Instant::elapsed: the time passed since `start`.
#[verifier::external_body]
fn clock_elapsed(start: &std::time::Instant) -> std::time::Duration {
    start.elapsed()
}

/// What the check of one file found.
pub struct FileReport {
    /// The full decode.
    pub full: DecodedImage,
    /// The metadata-only decode.
    pub fast: DecodedImage,
    /// How long the full decode took.
    pub full_time: std::time::Duration,
    /// How long the metadata-only decode took.
    pub fast_time: std::time::Duration,
    /// Whether the two decodes are consistent, and if not, why.
    pub outcome: Result<(), Inconsistency>,
}

/// Checks one RAW file held in memory: decodes it once in full to warm the
/// engine up, then in full and metadata-only under the clock, and checks the
/// two results against each other. Fails exactly when the engine cannot
/// decode the bytes in full or metadata-only.
pub fn verify_file_bytes(bytes: &[u8]) -> (r: Result<FileReport, DecodeError>)
    ensures
        r is Ok <==> full_decode_ok(bytes@) && metadata_decode_ok(bytes@),
        r matches Ok(rep) ==> rep.outcome == pair_outcome(rep.full, rep.fast),
        r matches Ok(rep) ==> (rep.outcome is Ok <==> metadata_eq(rep.full, rep.fast)
            && sample_count(rep.fast.data) <= 1),
{
    match decode_full(bytes) {
        Ok(_) => {},
        Err(e) => {
            return Err(e);
        },
    }
    let start = clock_now();
    let full = match decode_full(bytes) {
        Ok(d) => d,
        Err(e) => {
            return Err(e);
        },
    };
    let full_time = clock_elapsed(&start);
    let start = clock_now();
    let fast = match decode_metadata_only(bytes) {
        Ok(d) => d,
        Err(e) => {
            return Err(e);
        },
    };
    let fast_time = clock_elapsed(&start);
    let outcome = verify_pair(&full, &fast);
    Ok(FileReport { full, fast, full_time, fast_time, outcome })
}

} // verus!
