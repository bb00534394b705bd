use raw_exif_check::floats::{f32_slices_eq, is_nan_bits};

fn bits(values: &[f32]) -> Vec<u32> {
    values.iter().map(|v| v.to_bits()).collect()
}

#[test]
fn nan_bits_are_recognized() {
    assert!(is_nan_bits(f32::NAN.to_bits()));
    assert!(is_nan_bits(0x7fc0_0001));
    assert!(is_nan_bits(0xffc0_0000));
    assert!(!is_nan_bits(f32::INFINITY.to_bits()));
    assert!(!is_nan_bits(f32::NEG_INFINITY.to_bits()));
    assert!(!is_nan_bits(1.0f32.to_bits()));
    assert!(!is_nan_bits(0));
}

#[test]
fn self_comparison_with_nan_succeeds() {
    let s = bits(&[1.5, f32::NAN, 2.0, f32::NAN]);
    assert!(f32_slices_eq(&s, &s));
}

#[test]
fn single_nan_matches_single_nan() {
    let a = bits(&[f32::NAN]);
    let b = bits(&[f32::NAN]);
    assert!(f32_slices_eq(&a, &b));
    let x = f32::NAN;
    let y = f32::NAN;
    assert!(x != y);
}

#[test]
fn nan_payloads_need_not_agree() {
    assert!(f32_slices_eq(&[0x7fc0_0000], &[0x7fc0_0001]));
}

#[test]
fn length_mismatch_is_unequal() {
    assert!(!f32_slices_eq(&bits(&[1.0, 2.0]), &bits(&[1.0])));
    assert!(!f32_slices_eq(&bits(&[f32::NAN]), &bits(&[])));
    assert!(!f32_slices_eq(&bits(&[]), &bits(&[0.0])));
}

#[test]
fn one_sided_nan_is_unequal() {
    assert!(!f32_slices_eq(&bits(&[f32::NAN, 1.0]), &bits(&[2.0, 1.0])));
    assert!(!f32_slices_eq(&bits(&[2.0, 1.0]), &bits(&[f32::NAN, 1.0])));
}

#[test]
fn values_compare_bit_for_bit() {
    assert!(f32_slices_eq(&bits(&[1.0, 2.5, 0.25, 7.0]), &bits(&[1.0, 2.5, 0.25, 7.0])));
    assert!(!f32_slices_eq(&bits(&[1.0, 2.5]), &bits(&[1.0, 2.5000002])));
    assert!(!f32_slices_eq(&bits(&[0.0]), &bits(&[-0.0])));
}

#[test]
fn empty_sequences_are_equal() {
    assert!(f32_slices_eq(&[], &[]));
}
