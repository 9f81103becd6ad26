use iv_oracle::rescale::{rescale_to_8, MAX_MANTISSA};
use iv_oracle::types::Error;

#[test]
fn exact_when_scale_below_eight() {
    assert_eq!(rescale_to_8(54321, 5), Ok(54321000));
    assert_eq!(rescale_to_8(0, 0), Ok(0));
    assert_eq!(rescale_to_8(7, 0), Ok(700000000));
    assert_eq!(rescale_to_8(123456789, 8), Ok(123456789));
}

#[test]
fn rounds_half_to_even_when_scale_above_eight() {
    // 15 / 10 = 1.5: tie, rounds to the even neighbour 2.
    assert_eq!(rescale_to_8(15, 9), Ok(2));
    // 25 / 10 = 2.5: tie, stays at the even neighbour 2.
    assert_eq!(rescale_to_8(25, 9), Ok(2));
    // 5 / 10 = 0.5: tie, rounds down to 0.
    assert_eq!(rescale_to_8(5, 9), Ok(0));
    // 14 / 10 rounds down, 16 / 10 rounds up.
    assert_eq!(rescale_to_8(14, 9), Ok(1));
    assert_eq!(rescale_to_8(16, 9), Ok(2));
    // Scale 10: divide by 100.
    assert_eq!(rescale_to_8(54321000066u128 as i128, 10), Ok(543210001));
}

#[test]
fn negative_mantissa_is_rejected() {
    assert_eq!(rescale_to_8(-1, 0), Err(Error::InvalidParameter));
    assert_eq!(rescale_to_8(-54321, 5), Err(Error::InvalidParameter));
}

#[test]
fn out_of_range_scale_is_rejected() {
    assert_eq!(rescale_to_8(1, 29), Err(Error::InvalidParameter));
    assert_eq!(rescale_to_8(1, 28), Ok(0));
}

#[test]
fn overflowing_rescale_is_rejected() {
    let max = MAX_MANTISSA as i128;
    assert_eq!(rescale_to_8(max + 1, 8), Err(Error::InvalidParameter));
    // In range at scale 8, but multiplying to scale 8 from scale 0 overflows.
    assert_eq!(rescale_to_8(max, 0), Err(Error::InvalidParameter));
    assert_eq!(rescale_to_8(max, 8), Ok(MAX_MANTISSA));
}
