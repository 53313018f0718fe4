use ws63_rf::sae_bounds::{
    bignum_aliases, bignum_export_valid, bignum_write_capacity, bignum_writable, checked_range,
    clear_bytes, entropy_top_mask, mask_entropy, object_alias_is_valid, p256_legendre_result,
    point_aliases, point_export_valid, random_step, ranges_overlap, LegendreSymbol, RandomDraw,
    RandomStep, BIGNUM_MAGIC, MAX_RANDOM_REJECTIONS, OWNED,
};

const P256_FIELD_ONE: [u8; 32] = [
    0, 0, 0, 0, 0, 0, 0, 0, 0, 0, 0, 0, 0, 0, 0, 0, 0, 0, 0, 0, 0, 0, 0, 0, 0, 0, 0, 0, 0, 0, 0, 1,
];
const P256_FIELD_MINUS_ONE: [u8; 32] = [
    0xff, 0xff, 0xff, 0xff, 0x00, 0x00, 0x00, 0x01, 0x00, 0x00, 0x00, 0x00, 0x00, 0x00, 0x00, 0x00,
    0x00, 0x00, 0x00, 0x00, 0xff, 0xff, 0xff, 0xff, 0xff, 0xff, 0xff, 0xff, 0xff, 0xff, 0xff, 0xfe,
];

#[test]
fn range_checks_reject_partial_alias_and_wraparound() {
    assert!(object_alias_is_valid(0x1000, 64, 0x1000, 64));
    assert!(object_alias_is_valid(0x1000, 64, 0x1040, 64));
    assert!(!object_alias_is_valid(0x1000, 64, 0x1020, 64));
    assert_eq!(ranges_overlap(usize::MAX - 7, 8, 0x1000, 8), None);
}

#[test]
fn entropy_mask_preserves_only_the_modulus_bit_width() {
    assert_eq!(entropy_top_mask(0), None);
    assert_eq!(entropy_top_mask(1), Some(0x01));
    assert_eq!(entropy_top_mask(0x7f), Some(0x7f));
    assert_eq!(entropy_top_mask(0x80), Some(0xff));
}

#[test]
fn p256_legendre_result_accepts_only_euler_outputs() {
    assert_eq!(p256_legendre_result(&[0u8; 32]), Ok(LegendreSymbol::Zero));
    assert_eq!(p256_legendre_result(&P256_FIELD_ONE), Ok(LegendreSymbol::Residue));
    assert_eq!(p256_legendre_result(&P256_FIELD_MINUS_ONE), Ok(LegendreSymbol::NonResidue));
    assert_eq!(p256_legendre_result(&[2u8; 32]), Err(()));
}

#[test]
fn checked_range_gives_end_or_none_on_overflow() {
    assert_eq!(checked_range(0x1000, 0x20), Some((0x1000, 0x1020)));
    assert_eq!(checked_range(usize::MAX, 1), None);
    assert_eq!(checked_range(usize::MAX, 0), Some((usize::MAX, usize::MAX)));
}

#[test]
fn touching_ranges_do_not_overlap() {
    assert_eq!(ranges_overlap(0x1000, 0x10, 0x1010, 0x10), Some(false));
    assert_eq!(ranges_overlap(0x1000, 0x11, 0x1010, 0x10), Some(true));
    assert_eq!(ranges_overlap(0x1010, 0x10, 0x1000, 0x11), Some(true));
}

#[test]
fn entropy_mask_of_mid_values() {
    assert_eq!(entropy_top_mask(0x10), Some(0x1f));
    assert_eq!(entropy_top_mask(0xff), Some(0xff));
    assert_eq!(entropy_top_mask(0x02), Some(0x03));
}

#[test]
fn bignum_aliases_accept_identical_and_disjoint_inputs() {
    assert!(bignum_aliases(0x1000, &[0x1000, 0x2000, 0x2000], 64));
    assert!(!bignum_aliases(0, &[0x2000], 64));
    assert!(!bignum_aliases(0x1000, &[0], 64));
    assert!(!bignum_aliases(0x1000, &[0x1020], 64));
    assert!(!bignum_aliases(0x1000, &[0x2000, 0x2010], 64));
    assert!(bignum_aliases(0x1000, &[], 64));
}

#[test]
fn point_aliases_also_keep_the_output_off_the_context() {
    assert!(point_aliases(0x8000, 0x100, 0x1000, &[0x2000], 64));
    assert!(!point_aliases(0x8000, 0x100, 0x8010, &[0x2000], 64));
    assert!(!point_aliases(0x8000, 0x100, 0, &[0x2000], 64));
}

#[test]
fn bignum_export_capacity_and_checks() {
    assert_eq!(bignum_write_capacity(100, 0, 32), 32);
    assert_eq!(bignum_write_capacity(16, 0, 32), 16);
    assert_eq!(bignum_write_capacity(100, 48, 32), 48);
    assert!(bignum_export_valid(0x1000, 64, 32, 32, 0x2000, 64));
    assert!(!bignum_export_valid(0, 64, 32, 32, 0x2000, 64));
    assert!(!bignum_export_valid(0x1000, 16, 32, 32, 0x2000, 64));
    assert!(!bignum_export_valid(0x1000, 64, 48, 32, 0x2000, 64));
    assert!(!bignum_export_valid(0x1ff0, 64, 0, 32, 0x2000, 64));
}

#[test]
fn point_export_outputs_stay_apart() {
    assert!(point_export_valid(0x1000, 0x1020, 0x2000, 64, 0x3000, 64));
    assert!(point_export_valid(0, 0, 0x2000, 64, 0x3000, 64));
    assert!(!point_export_valid(0x1000, 0x1010, 0x2000, 64, 0x3000, 64));
    assert!(!point_export_valid(0x2010, 0, 0x2000, 64, 0x3000, 64));
    assert!(!point_export_valid(0, 0x3000, 0x2000, 64, 0x3000, 64));
}

#[test]
fn writable_bignums_are_owned_and_tagged() {
    assert!(bignum_writable(BIGNUM_MAGIC, OWNED));
    assert!(!bignum_writable(BIGNUM_MAGIC, 0));
    assert!(!bignum_writable(0, OWNED));
}

#[test]
fn random_draw_retries_until_the_budget_is_spent() {
    assert_eq!(random_step(0, false, RandomDraw::Accepted), RandomStep::Fail);
    assert_eq!(random_step(0, true, RandomDraw::Accepted), RandomStep::Store);
    assert_eq!(random_step(0, true, RandomDraw::Failed), RandomStep::Fail);
    assert_eq!(random_step(0, true, RandomDraw::Rejected), RandomStep::Retry);
    assert_eq!(random_step(MAX_RANDOM_REJECTIONS - 2, true, RandomDraw::Rejected), RandomStep::Retry);
    assert_eq!(random_step(MAX_RANDOM_REJECTIONS - 1, true, RandomDraw::Rejected), RandomStep::Fail);
}

#[test]
fn masking_and_clearing_entropy() {
    let mut bytes = [0xffu8, 0xaa, 0x55];
    mask_entropy(&mut bytes, 0x1f);
    assert_eq!(bytes, [0x1f, 0xaa, 0x55]);
    clear_bytes(&mut bytes);
    assert_eq!(bytes, [0, 0, 0]);
}
