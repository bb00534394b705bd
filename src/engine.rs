//! The RAW decoding engine: rawloader's two decode paths, and the conversion of
//! what they return into `DecodedImage`.

use vstd::prelude::*;
use crate::image::{CfaInfo, DecodedImage, PixelData};

verus! {

#[verifier::external_type_specification]
#[verifier::external_body]
pub struct ExRawImage(rawloader::RawImage);

#[verifier::external_type_specification]
#[verifier::external_body]
pub struct ExRawLoaderError(rawloader::RawLoaderError);

/// Why the engine could not decode a file.
#[derive(Debug, Clone)]
pub enum DecodeError {
    /// The engine's own message.
    Engine(String),
}

/// Whether rawloader's full decode succeeds on these bytes.
pub uninterp spec fn full_decode_ok(bytes: Seq<u8>) -> bool;

/// Whether rawloader's metadata-only decode succeeds on these bytes.
pub uninterp spec fn metadata_decode_ok(bytes: Seq<u8>) -> bool;

/// Relies on rawloader::decode: decodes a RAW file held in memory, pixels
/// included. The engine turns its own panics into errors, and whether it
/// succeeds depends on the bytes alone.
#[verifier::external_body]
fn decode_raw(bytes: &[u8]) -> (r: Result<rawloader::RawImage, rawloader::RawLoaderError>)
    ensures
        r is Ok <==> full_decode_ok(bytes@),
{
    let mut reader: &[u8] = bytes;
    rawloader::decode(&mut reader)
}

/// Relies on rawloader::decode_dummy: decodes the metadata of a RAW file held
/// in memory, leaving at most a placeholder sample in place of the pixels.
/// Whether it succeeds depends on the bytes alone.
#[verifier::external_body]
fn decode_raw_metadata(bytes: &[u8]) -> (r: Result<
    rawloader::RawImage,
    rawloader::RawLoaderError,
>)
    ensures
        r is Ok <==> metadata_decode_ok(bytes@),
{
    let mut reader: &[u8] = bytes;
    rawloader::decode_dummy(&mut reader)
}

/// Relies on RawLoaderError's Display impl for the engine's message.
#[verifier::external_body]
fn error_text(e: &rawloader::RawLoaderError) -> String {
    e.to_string()
}

/// Relies on the public fields make, model, clean_make and clean_model of
/// rawloader::RawImage.
#[verifier::external_body]
fn raw_names(img: &rawloader::RawImage) -> (String, String, String, String) {
    (img.make.clone(), img.model.clone(), img.clean_make.clone(), img.clean_model.clone())
}

/// Relies on the public fields width, height and cpp of rawloader::RawImage.
#[verifier::external_body]
fn raw_dims(img: &rawloader::RawImage) -> (usize, usize, usize) {
    (img.width, img.height, img.cpp)
}

/// Relies on the public field xyz_to_cam of rawloader::RawImage: its twelve
/// `f32` entries, row by row, as bit patterns.
#[verifier::external_body]
fn raw_xyz_to_cam(img: &rawloader::RawImage) -> (r: Vec<u32>)
    ensures
        r@.len() == 12,
{
    img.xyz_to_cam.iter().flatten().map(|v| v.to_bits()).collect()
}

/// Relies on the public fields name, width and height of rawloader's CFA.
#[verifier::external_body]
fn raw_cfa(img: &rawloader::RawImage) -> CfaInfo {
    CfaInfo { name: img.cfa.name.clone(), width: img.cfa.width, height: img.cfa.height }
}

/// Relies on the public field crops of rawloader::RawImage: four margins.
#[verifier::external_body]
fn raw_crops(img: &rawloader::RawImage) -> (r: Vec<usize>)
    ensures
        r@.len() == 4,
{
    img.crops.to_vec()
}

/// Relies on rawloader::Orientation::to_u16: the EXIF orientation number, 0
/// for an unknown orientation, never above 8.
#[verifier::external_body]
fn raw_orientation(img: &rawloader::RawImage) -> (r: u16)
    ensures
        r <= 8,
{
    img.orientation.to_u16()
}

/// Relies on the public field wb_coeffs of rawloader::RawImage: its four `f32`
/// entries as bit patterns.
#[verifier::external_body]
fn raw_wb_coeffs(img: &rawloader::RawImage) -> (r: Vec<u32>)
    ensures
        r@.len() == 4,
{
    img.wb_coeffs.iter().map(|v| v.to_bits()).collect()
}

/// Relies on the public field data of rawloader::RawImage, moving the samples
/// out; float samples become their bit patterns.
#[verifier::external_body]
fn raw_pixels(img: rawloader::RawImage) -> PixelData {
    match img.data {
        rawloader::RawImageData::Integer(v) => PixelData::Integer(v),
        rawloader::RawImageData::Float(v) => PixelData::Float(v.iter().map(|x| x.to_bits()).collect()),
    }
}

/// Turns what the engine returned into the library's record.
fn to_decoded(img: rawloader::RawImage) -> (r: DecodedImage)
    ensures
        r.xyz_to_cam@.len() == 12,
        r.crops@.len() == 4,
        r.wb_coeffs@.len() == 4,
        r.orientation <= 8,
{
    let (make, model, clean_make, clean_model) = raw_names(&img);
    let (width, height, cpp) = raw_dims(&img);
    let xyz_to_cam = raw_xyz_to_cam(&img);
    let cfa = raw_cfa(&img);
    let crops = raw_crops(&img);
    let orientation = raw_orientation(&img);
    let wb_coeffs = raw_wb_coeffs(&img);
    let data = raw_pixels(img);
    DecodedImage {
        make,
        model,
        clean_make,
        clean_model,
        width,
        height,
        cpp,
        xyz_to_cam,
        cfa,
        crops,
        orientation,
        wb_coeffs,
        data,
    }
}

fn to_result(r: Result<rawloader::RawImage, rawloader::RawLoaderError>) -> (out: Result<
    DecodedImage,
    DecodeError,
>)
    ensures
        r is Ok <==> out is Ok,
        out matches Ok(d) ==> d.xyz_to_cam@.len() == 12 && d.crops@.len() == 4
            && d.wb_coeffs@.len() == 4 && d.orientation <= 8,
{
    match r {
        Ok(img) => Ok(to_decoded(img)),
        Err(e) => Err(DecodeError::Engine(error_text(&e))),
    }
}

/// Decodes a whole RAW file held in memory, pixels included.
pub fn decode_full(bytes: &[u8]) -> (r: Result<DecodedImage, DecodeError>)
    ensures
        r is Ok <==> full_decode_ok(bytes@),
        r matches Ok(d) ==> d.xyz_to_cam@.len() == 12 && d.crops@.len() == 4
            && d.wb_coeffs@.len() == 4 && d.orientation <= 8,
{
    to_result(decode_raw(bytes))
}

/// Decodes only the metadata of a RAW file held in memory.
pub fn decode_metadata_only(bytes: &[u8]) -> (r: Result<DecodedImage, DecodeError>)
    ensures
        r is Ok <==> metadata_decode_ok(bytes@),
        r matches Ok(d) ==> d.xyz_to_cam@.len() == 12 && d.crops@.len() == 4
            && d.wb_coeffs@.len() == 4 && d.orientation <= 8,
{
    to_result(decode_raw_metadata(bytes))
}

} // verus!
