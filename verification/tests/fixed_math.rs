use alc_calc::fixed::{fadd, fdiv, fmul, Fixed, MILLI, SCALE};
use alc_calc::math::{exp_pos, ln_pos};

#[test]
fn test_fixed_constructors() {
    assert_eq!(Fixed::zero().raw, 0);
    assert_eq!(Fixed::from_int(2).raw, 2 * SCALE);
    assert_eq!(Fixed::from_milli(1_500).raw, 1_500 * MILLI);
    assert_eq!(Fixed::from_raw(7).raw, 7);
}

#[test]
fn test_fixed_mul_and_div_are_exact() {
    let a = Fixed::from_milli(1_500);
    let b = Fixed::from_int(2);
    assert_eq!(fmul(a, b), Fixed::from_int(3));
    assert_eq!(fdiv(Fixed::from_int(1), Fixed::from_int(3)).raw, 333_333_333);
    assert_eq!(fadd(a, b), Fixed::from_milli(3_500));
}

#[test]
fn test_fixed_saturates_instead_of_overflowing() {
    let big = Fixed::from_raw(u64::MAX);
    assert_eq!(fmul(big, big).raw, u64::MAX);
    assert_eq!(fadd(big, Fixed::from_int(1)).raw, u64::MAX);
    assert_eq!(fdiv(big, Fixed::from_milli(1)).raw, u64::MAX);
}

#[test]
fn test_exp_known_points() {
    // e^0 = 1 exactly; e^0.88 = 2.41089970..., matched to the last raw unit
    // the series produces.
    assert_eq!(exp_pos(Fixed::zero()).raw, SCALE);
    assert_eq!(exp_pos(Fixed::from_milli(880)).raw, 2_410_899_701);
    assert_eq!(exp_pos(Fixed::from_int(1)).raw, 2_718_281_823);
}

#[test]
fn test_ln_known_points() {
    // ln 1 = 0; ln 4 = 1.38629436...; ln 10 = 2.30258509...
    assert_eq!(ln_pos(Fixed::from_int(1)).raw, 0);
    assert_eq!(ln_pos(Fixed::from_int(4)).raw, 1_386_294_344);
    assert_eq!(ln_pos(Fixed::from_int(10)).raw, 2_302_585_093);
}
