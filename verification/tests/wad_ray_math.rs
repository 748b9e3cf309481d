use aave_v3_liquidator::u256::U256;
use aave_v3_liquidator::wad_ray_math::{
    ray_div, ray_mul, ray_to_wad, wad_div, wad_mul, wad_to_ray, MathError, HALF_RAY, HALF_WAD,
    RAY, WAD, WAD_RAY_RATIO,
};
use ethers::types::U256 as Wide;

fn lib(x: Wide) -> U256 {
    U256::from_limbs(x.0)
}

fn dec(text: &str) -> Wide {
    Wide::from_dec_str(text).unwrap()
}

#[test]
fn test_wad_mul() {
    let a = dec("134534543232342353231234");
    let b = dec("13265462389132757665657");
    let wad = Wide::from(WAD);
    let half_wad = Wide::from(HALF_WAD);

    assert_eq!(
        wad_mul(lib(a), lib(b)),
        Ok(lib(a * b / wad + (a * b % wad + half_wad) / wad))
    );

    assert_eq!(wad_mul(lib(Wide::zero()), lib(b)), Ok(lib(Wide::zero())));
    assert_eq!(wad_mul(lib(a), lib(Wide::zero())), Ok(lib(Wide::zero())));

    let too_large_a = (Wide::max_value() - half_wad) / b + Wide::one();
    assert_eq!(wad_mul(lib(too_large_a), lib(b)), Err(MathError::Overflow));
}

#[test]
fn test_wad_div() {
    let a = dec("134534543232342353231234");
    let b = dec("13265462389132757665657");
    let wad = Wide::from(WAD);

    assert_eq!(wad_div(lib(a), lib(b)), Ok(lib((a * wad + b / Wide::from(2)) / b)));

    assert_eq!(wad_div(lib(a), lib(Wide::zero())), Err(MathError::DivideByZero));

    let half_b = b / Wide::from(2);
    let too_large_a = (Wide::max_value() - half_b) / wad + Wide::one();
    assert_eq!(wad_div(lib(too_large_a), lib(b)), Err(MathError::Overflow));
}

#[test]
fn test_ray_mul() {
    let a = dec("134534543232342353231234");
    let b = dec("13265462389132757665657");
    let ray = Wide::from(RAY);
    let half_ray = Wide::from(HALF_RAY);

    assert_eq!(
        ray_mul(lib(a), lib(b)),
        Ok(lib(a * b / ray + (a * b % ray + half_ray) / ray))
    );

    assert_eq!(ray_mul(lib(Wide::zero()), lib(b)), Ok(lib(Wide::zero())));
    assert_eq!(ray_mul(lib(a), lib(Wide::zero())), Ok(lib(Wide::zero())));

    let too_large_a = (Wide::max_value() - half_ray) / b + Wide::one();
    assert_eq!(ray_mul(lib(too_large_a), lib(b)), Err(MathError::Overflow));
}

#[test]
fn test_ray_div() {
    let a = dec("134534543232342353231234");
    let b = dec("13265462389132757665657");
    let ray = Wide::from(RAY);

    assert_eq!(ray_div(lib(a), lib(b)), Ok(lib((a * ray + b / Wide::from(2)) / b)));

    assert_eq!(ray_div(lib(a), lib(Wide::zero())), Err(MathError::DivideByZero));

    let half_b = b / Wide::from(2);
    let too_large_a = (Wide::max_value() - half_b) / ray + Wide::one();
    assert_eq!(ray_div(lib(too_large_a), lib(b)), Err(MathError::Overflow));
}

#[test]
fn test_ray_to_wad() {
    let ratio = Wide::from(WAD_RAY_RATIO);
    let half = ratio / Wide::from(2);

    let a = Wide::exp10(27);
    assert_eq!(ray_to_wad(lib(a)), lib(Wide::exp10(18)));

    let round_down = Wide::exp10(27) + half - Wide::one();
    assert_eq!(ray_to_wad(lib(round_down)), lib(Wide::exp10(18)));

    let round_up = Wide::exp10(27) + half;
    assert_eq!(ray_to_wad(lib(round_up)), lib(Wide::exp10(18) + Wide::one()));

    let too_large = Wide::max_value() - half + Wide::one();
    assert_eq!(ray_to_wad(lib(too_large)), lib(too_large / ratio + Wide::one()));
}

#[test]
fn test_wad_to_ray() {
    let ratio = Wide::from(WAD_RAY_RATIO);

    let a = Wide::exp10(18);
    assert_eq!(wad_to_ray(lib(a)), Ok(lib(Wide::exp10(27))));

    let too_large = Wide::max_value() / ratio + Wide::one();
    assert_eq!(wad_to_ray(lib(too_large)), Err(MathError::Overflow));
}

#[test]
fn wad_mul_accepts_the_largest_safe_operand() {
    let b = dec("13265462389132757665657");
    let half_wad = Wide::from(HALF_WAD);
    let wad = Wide::from(WAD);
    let largest = (Wide::max_value() - half_wad) / b;
    assert_eq!(wad_mul(lib(largest), lib(b)), Ok(lib((largest * b + half_wad) / wad)));
    assert_eq!(wad_mul(lib(largest + Wide::one()), lib(b)), Err(MathError::Overflow));
}

#[test]
fn wad_div_accepts_the_largest_safe_operand() {
    let b = dec("13265462389132757665657");
    let wad = Wide::from(WAD);
    let half_b = b / Wide::from(2);
    let largest = (Wide::max_value() - half_b) / wad;
    assert_eq!(wad_div(lib(largest), lib(b)), Ok(lib((largest * wad + half_b) / b)));
    assert_eq!(wad_div(lib(largest + Wide::one()), lib(b)), Err(MathError::Overflow));
}

#[test]
fn ray_operations_accept_the_largest_safe_operand() {
    let b = dec("13265462389132757665657");
    let ray = Wide::from(RAY);
    let half_ray = Wide::from(HALF_RAY);
    let largest = (Wide::max_value() - half_ray) / b;
    assert_eq!(ray_mul(lib(largest), lib(b)), Ok(lib((largest * b + half_ray) / ray)));
    let half_b = b / Wide::from(2);
    let largest = (Wide::max_value() - half_b) / ray;
    assert_eq!(ray_div(lib(largest), lib(b)), Ok(lib((largest * ray + half_b) / b)));
}

#[test]
fn div_by_zero_fails_for_every_dividend() {
    for a in [Wide::zero(), Wide::one(), Wide::from(WAD), Wide::max_value()] {
        assert_eq!(wad_div(lib(a), lib(Wide::zero())), Err(MathError::DivideByZero));
        assert_eq!(ray_div(lib(a), lib(Wide::zero())), Err(MathError::DivideByZero));
    }
}

#[test]
fn mul_by_zero_is_zero() {
    for a in [Wide::zero(), Wide::one(), Wide::from(WAD), Wide::max_value()] {
        assert_eq!(wad_mul(lib(a), lib(Wide::zero())), Ok(lib(Wide::zero())));
        assert_eq!(wad_mul(lib(Wide::zero()), lib(a)), Ok(lib(Wide::zero())));
        assert_eq!(ray_mul(lib(a), lib(Wide::zero())), Ok(lib(Wide::zero())));
        assert_eq!(ray_mul(lib(Wide::zero()), lib(a)), Ok(lib(Wide::zero())));
    }
}

#[test]
fn mul_commutes() {
    let a = dec("134534543232342353231234");
    let b = dec("13265462389132757665657");
    assert_eq!(wad_mul(lib(a), lib(b)), wad_mul(lib(b), lib(a)));
    assert_eq!(ray_mul(lib(a), lib(b)), ray_mul(lib(b), lib(a)));
    let huge = Wide::max_value() / Wide::from(3);
    assert_eq!(wad_mul(lib(huge), lib(b)), Err(MathError::Overflow));
    assert_eq!(wad_mul(lib(b), lib(huge)), Err(MathError::Overflow));
}

#[test]
fn mul_then_div_returns_within_one_unit() {
    let a = dec("134534543232342353231234");
    let b = dec("13265462389132757665657");
    let product = wad_mul(lib(a), lib(b)).unwrap();
    let back = Wide(wad_div(product, lib(b)).unwrap().to_limbs());
    assert!(back <= a + Wide::one() && a <= back + Wide::one());
    let product = ray_mul(lib(a), lib(Wide::from(RAY))).unwrap();
    let back = Wide(ray_div(product, lib(Wide::from(RAY))).unwrap().to_limbs());
    assert_eq!(back, a);
}

#[test]
fn mul_then_div_by_a_tiny_factor_loses_the_operand() {
    let a = dec("1400000000000000000");
    let product = wad_mul(lib(a), lib(Wide::one())).unwrap();
    assert_eq!(product, lib(Wide::one()));
    assert_eq!(wad_div(product, lib(Wide::one())), Ok(lib(Wide::from(WAD))));
}

#[test]
fn wad_mul_of_known_values() {
    // 1.5 * 2.5 = 3.75
    let a = dec("1500000000000000000");
    let b = dec("2500000000000000000");
    assert_eq!(wad_mul(lib(a), lib(b)), Ok(lib(dec("3750000000000000000"))));
    // 3 wei * 0.5 = 1.5 wei, rounded half up to 2
    assert_eq!(wad_mul(lib(Wide::from(3)), lib(Wide::from(HALF_WAD))), Ok(lib(Wide::from(2))));
    // 1 / 3 = 0.333..., rounded down
    assert_eq!(
        wad_div(lib(Wide::from(WAD)), lib(Wide::from(WAD) * Wide::from(3))),
        Ok(lib(dec("333333333333333333")))
    );
    // 2 / 3 = 0.666..., rounded up
    assert_eq!(
        wad_div(lib(Wide::from(WAD) * Wide::from(2)), lib(Wide::from(WAD) * Wide::from(3))),
        Ok(lib(dec("666666666666666667")))
    );
}

#[test]
fn ray_to_wad_rounds_half_up() {
    let below = dec("1000000000000000000499999999");
    assert_eq!(ray_to_wad(lib(below)), lib(dec("1000000000000000000")));
    let half = dec("1000000000000000000500000000");
    assert_eq!(ray_to_wad(lib(half)), lib(dec("1000000000000000001")));
    assert_eq!(ray_to_wad(lib(Wide::zero())), lib(Wide::zero()));
    assert_eq!(ray_to_wad(lib(Wide::from(499_999_999u64))), lib(Wide::zero()));
    assert_eq!(ray_to_wad(lib(Wide::from(500_000_000u64))), lib(Wide::one()));
}

#[test]
fn wad_to_ray_accepts_the_largest_operand() {
    let ratio = Wide::from(WAD_RAY_RATIO);
    let largest = Wide::max_value() / ratio;
    assert_eq!(wad_to_ray(lib(largest)), Ok(lib(largest * ratio)));
    assert_eq!(ray_to_wad(wad_to_ray(lib(largest)).unwrap()), lib(largest));
}
