use aave_v3_liquidator::i256::I256;
use aave_v3_liquidator::u256::U256;
use ethers::types::{I256 as Signed, U256 as Wide};

fn lib(x: Signed) -> I256 {
    I256::from_raw(U256::from_limbs(x.into_raw().0))
}

fn samples() -> Vec<Signed> {
    vec![
        Signed::zero(),
        Signed::one(),
        Signed::minus_one(),
        Signed::from(100),
        Signed::from(-100),
        Signed::from(7),
        Signed::from(-7),
        Signed::from(i64::MAX),
        Signed::from(i64::MIN),
        Signed::from_dec_str("134534543232342353231234").unwrap(),
        Signed::from_dec_str("-13265462389132757665657").unwrap(),
        Signed::MAX,
        Signed::MIN,
        Signed::MAX - Signed::one(),
        Signed::MIN + Signed::one(),
    ]
}

#[test]
fn signed_constructors_agree_with_ethers() {
    assert_eq!(I256::zero(), lib(Signed::zero()));
    assert_eq!(I256::min_value(), lib(Signed::MIN));
    assert_eq!(I256::max_value(), lib(Signed::MAX));
    assert_eq!(I256::from_u64(100), lib(Signed::from(100)));
    assert_eq!(lib(Signed::from(-5)).into_raw().to_limbs(), Signed::from(-5).into_raw().0);
}

#[test]
fn signs_and_order_agree_with_ethers() {
    for a in samples() {
        assert_eq!(lib(a).is_negative(), a.is_negative());
        assert_eq!(lib(a).is_positive(), a.is_positive());
        for b in samples() {
            assert_eq!(lib(a).lt(&lib(b)), a < b);
            assert_eq!(lib(a).gt(&lib(b)), a > b);
            assert_eq!(lib(a).same(&lib(b)), a == b);
        }
    }
}

#[test]
fn signed_checked_operations_agree_with_ethers() {
    for a in samples() {
        for b in samples() {
            assert_eq!(lib(a).checked_mul(&lib(b)), a.checked_mul(b).map(lib));
            assert_eq!(lib(a).checked_div(&lib(b)), a.checked_div(b).map(lib));
            assert_eq!(lib(a).checked_sub(&lib(b)), a.checked_sub(b).map(lib));
        }
    }
}

#[test]
fn signed_checked_operations_of_known_values() {
    let seven = lib(Signed::from(7));
    let minus_seven = lib(Signed::from(-7));
    let two = lib(Signed::from(2));
    let minus_two = lib(Signed::from(-2));
    assert_eq!(seven.checked_mul(&minus_two), Some(lib(Signed::from(-14))));
    assert_eq!(minus_seven.checked_mul(&minus_two), Some(lib(Signed::from(14))));
    assert_eq!(seven.checked_div(&two), Some(lib(Signed::from(3))));
    assert_eq!(minus_seven.checked_div(&two), Some(lib(Signed::from(-3))));
    assert_eq!(seven.checked_div(&minus_two), Some(lib(Signed::from(-3))));
    assert_eq!(minus_seven.checked_div(&minus_two), Some(lib(Signed::from(3))));
    assert_eq!(seven.checked_div(&I256::zero()), None);
    assert_eq!(I256::min_value().checked_div(&lib(Signed::minus_one())), None);
    assert_eq!(two.checked_sub(&seven), Some(lib(Signed::from(-5))));
    assert_eq!(I256::min_value().checked_sub(&I256::from_u64(1)), None);
    assert_eq!(I256::max_value().checked_sub(&lib(Signed::minus_one())), None);
    assert_eq!(I256::max_value().checked_mul(&two), None);
    assert_eq!(I256::min_value().checked_mul(&lib(Signed::minus_one())), None);
}

#[test]
fn conversions_from_and_to_unsigned() {
    let max = U256::from_limbs(Signed::MAX.into_raw().0);
    assert_eq!(I256::try_from_u256(max), Some(I256::max_value()));
    let above = U256::from_limbs((Signed::MAX.into_raw() + Wide::one()).0);
    assert_eq!(I256::try_from_u256(above), None);
    assert_eq!(I256::try_from_u256(U256::max_value()), None);
    assert_eq!(I256::try_from_u256(U256::from_u64(12)), Some(I256::from_u64(12)));
    assert_eq!(I256::from_u64(12).try_into_u256(), Some(U256::from_u64(12)));
    assert_eq!(I256::zero().try_into_u256(), Some(U256::zero()));
    assert_eq!(lib(Signed::minus_one()).try_into_u256(), None);
    assert_eq!(I256::min_value().try_into_u256(), None);
    for a in samples() {
        let through_text = Wide::from_dec_str(&a.to_string()).ok().map(|u| U256::from_limbs(u.0));
        assert_eq!(lib(a).try_into_u256(), through_text);
    }
}
