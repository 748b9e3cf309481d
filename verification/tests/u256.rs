use aave_v3_liquidator::u256::U256;
use ethers::types::U256 as Wide;

fn lib(x: Wide) -> U256 {
    U256::from_limbs(x.0)
}

fn dec(text: &str) -> Wide {
    Wide::from_dec_str(text).unwrap()
}

fn samples() -> Vec<Wide> {
    vec![
        Wide::zero(),
        Wide::one(),
        Wide::from(u64::MAX),
        Wide::from(u64::MAX) + Wide::one(),
        Wide::from(u128::MAX),
        Wide::from(u128::MAX) + Wide::one(),
        dec("134534543232342353231234"),
        dec("13265462389132757665657"),
        Wide::one() << 192,
        (Wide::one() << 192) - Wide::one(),
        Wide::one() << 255,
        Wide::max_value() - Wide::one(),
        Wide::max_value(),
    ]
}

#[test]
fn constructors_agree_with_ethers() {
    assert_eq!(U256::zero(), lib(Wide::zero()));
    assert_eq!(U256::one(), lib(Wide::one()));
    assert_eq!(U256::max_value(), lib(Wide::max_value()));
    assert_eq!(U256::from_u64(1024), lib(Wide::from(1024u64)));
    assert_eq!(U256::from_u64(u64::MAX), lib(Wide::from(u64::MAX)));
    assert_eq!(U256::from_u128(u128::MAX), lib(Wide::from(u128::MAX)));
    assert_eq!(
        U256::from_u128(1_000_000_000_000_000_000_000_000_000),
        lib(Wide::exp10(27))
    );
    assert_eq!(lib(Wide::exp10(27)).to_limbs(), Wide::exp10(27).0);
}

#[test]
fn comparisons_agree_with_ethers() {
    for a in samples() {
        assert_eq!(lib(a).is_zero(), a.is_zero());
        assert_eq!(lib(a).low_u64(), a.low_u64());
        for b in samples() {
            assert_eq!(lib(a).lt(&lib(b)), a < b);
            assert_eq!(lib(a).le(&lib(b)), a <= b);
            assert_eq!(lib(a).gt(&lib(b)), a > b);
            assert_eq!(lib(a).ge(&lib(b)), a >= b);
            assert_eq!(lib(a).same(&lib(b)), a == b);
        }
    }
}

#[test]
fn checked_operations_agree_with_ethers() {
    for a in samples() {
        for b in samples() {
            assert_eq!(lib(a).checked_add(&lib(b)), a.checked_add(b).map(lib));
            assert_eq!(lib(a).checked_sub(&lib(b)), a.checked_sub(b).map(lib));
            assert_eq!(lib(a).checked_mul(&lib(b)), a.checked_mul(b).map(lib));
            assert_eq!(lib(a).checked_div(&lib(b)), a.checked_div(b).map(lib));
            assert_eq!(lib(a).checked_rem(&lib(b)), a.checked_rem(b).map(lib));
        }
    }
}

#[test]
fn checked_operations_of_known_values() {
    let seven = U256::from_u64(7);
    let three = U256::from_u64(3);
    assert_eq!(seven.checked_add(&three), Some(U256::from_u64(10)));
    assert_eq!(seven.checked_sub(&three), Some(U256::from_u64(4)));
    assert_eq!(three.checked_sub(&seven), None);
    assert_eq!(seven.checked_mul(&three), Some(U256::from_u64(21)));
    assert_eq!(seven.checked_div(&three), Some(U256::from_u64(2)));
    assert_eq!(seven.checked_rem(&three), Some(U256::from_u64(1)));
    assert_eq!(seven.checked_div(&U256::zero()), None);
    assert_eq!(seven.checked_rem(&U256::zero()), None);
    assert_eq!(U256::max_value().checked_add(&U256::one()), None);
    assert_eq!(U256::max_value().checked_mul(&U256::from_u64(2)), None);
    assert_eq!(
        U256::from_u64(u64::MAX).checked_add(&U256::one()),
        Some(U256::from_limbs([0, 1, 0, 0]))
    );
}

#[test]
fn powers_of_ten() {
    assert_eq!(U256::checked_exp10(0), Some(U256::one()));
    assert_eq!(U256::checked_exp10(1), Some(U256::from_u64(10)));
    assert_eq!(U256::checked_exp10(18), Some(lib(Wide::exp10(18))));
    assert_eq!(U256::checked_exp10(27), Some(lib(Wide::exp10(27))));
    assert_eq!(U256::checked_exp10(77), Some(lib(Wide::exp10(77))));
    assert_eq!(
        U256::checked_exp10(77),
        Some(lib(Wide::from(10).pow(Wide::from(77))))
    );
    assert_eq!(U256::checked_exp10(78), None);
    assert_eq!(U256::checked_exp10(u64::MAX), None);
}
