use aave_v3_liquidator::address::Address;
use aave_v3_liquidator::evaluator::{EvalError, LiquidationPair, LiquidationSizing};
use aave_v3_liquidator::i256::I256;
use aave_v3_liquidator::opportunity::{
    direct_profit, evaluate_direct, helper_profit, prepare_helper, settle_helper, DirectProfit,
};
use aave_v3_liquidator::prices::{PriceError, PriceSnapshot};
use aave_v3_liquidator::u256::U256;
use aave_v3_liquidator::wad_ray_math::MathError;
use ethers::types::I256 as Signed;

fn addr(n: u8) -> Address {
    let mut bytes = [0u8; 20];
    bytes[19] = n;
    Address::from_bytes(bytes)
}

fn num(x: u128) -> U256 {
    U256::from_u128(x)
}

fn signed(x: i128) -> I256 {
    I256::from_raw(U256::from_limbs(Signed::from(x).into_raw().0))
}

const COLLATERAL: u8 = 1;
const DEBT: u8 = 2;
const WETH: u8 = 9;
const WAD: u128 = 1_000_000_000_000_000_000;

fn pair() -> LiquidationPair {
    LiquidationPair {
        borrower: addr(50),
        collateral: addr(COLLATERAL),
        debt: addr(DEBT),
        a_token: addr(101),
        collateral_price: num(100),
        debt_price: num(50),
        collateral_unit: num(WAD),
        debt_unit: num(WAD),
        liquidation_bonus: 10500,
        collateral_symbol: "COL".to_string(),
        debt_symbol: "DBT".to_string(),
    }
}

fn prices() -> PriceSnapshot {
    PriceSnapshot::from_batch(
        &vec![addr(COLLATERAL), addr(DEBT), addr(WETH)],
        &vec![num(100), num(50), num(200)],
    )
}

#[test]
fn direct_profit_is_value_seized_less_value_repaid() {
    let sizing = LiquidationSizing {
        debt_to_cover: num(500 * WAD),
        collateral_to_liquidate: num(262_500_000_000_000_000_000),
    };
    assert_eq!(
        direct_profit(&pair(), &sizing, &num(50_000_000), &num(25_000_000)),
        Ok(DirectProfit { profit: signed(625_000_000), factor: signed(105) })
    );
}

#[test]
fn direct_profit_of_a_capped_sizing() {
    let sizing = LiquidationSizing {
        debt_to_cover: num(190_476_190_476_190_476_190),
        collateral_to_liquidate: num(100 * WAD),
    };
    assert_eq!(
        direct_profit(&pair(), &sizing, &num(50_000_000), &num(25_000_000)),
        Ok(DirectProfit { profit: signed(238_095_239), factor: signed(105) })
    );
}

#[test]
fn direct_profit_may_be_negative() {
    let sizing = LiquidationSizing {
        debt_to_cover: num(500 * WAD),
        collateral_to_liquidate: num(100 * WAD),
    };
    assert_eq!(
        direct_profit(&pair(), &sizing, &num(50_000_000), &num(25_000_000)),
        Ok(DirectProfit { profit: signed(-7_500_000_000), factor: signed(40) })
    );
}

#[test]
fn direct_evaluation_of_a_capped_position() {
    let mut pair = pair();
    pair.collateral_price = num(200_000_000_000);
    pair.debt_price = num(100_000_000);
    let snap = PriceSnapshot::from_batch(
        &vec![addr(COLLATERAL), addr(DEBT), addr(WETH)],
        &vec![num(200_000_000_000), num(100_000_000), num(200_000_000_000)],
    );
    let op = evaluate_direct(
        &pair,
        &snap,
        &addr(WETH),
        &num(WAD / 2),
        &num(1000 * WAD),
        &num(3000 * WAD),
        &num(1_050_000_000_000_000_000),
    )
    .unwrap();
    assert_eq!(op.debt_to_cover, num(2000 * WAD));
    // Seized: 1.05 native; repaid: 2000 * 0.0005 = 1 native; eight decimals.
    assert_eq!(op.profit_eth, signed(5_000_000));
    assert_eq!(op.profit_factor, signed(105));
}

#[test]
fn the_factor_is_zero_where_nothing_is_repaid() {
    let sizing = LiquidationSizing { debt_to_cover: num(0), collateral_to_liquidate: num(WAD) };
    assert_eq!(
        direct_profit(&pair(), &sizing, &num(50_000_000), &num(25_000_000)),
        Ok(DirectProfit { profit: signed(50_000_000), factor: signed(0) })
    );
}

#[test]
fn values_beyond_the_signed_range_are_refused() {
    let sizing = LiquidationSizing {
        debt_to_cover: num(500),
        collateral_to_liquidate: U256::max_value(),
    };
    assert_eq!(
        direct_profit(&pair(), &sizing, &num(50_000_000), &num(25_000_000)),
        Err(MathError::Overflow)
    );
    let top = U256::from_limbs(Signed::MAX.into_raw().0);
    let sizing = LiquidationSizing { debt_to_cover: num(500), collateral_to_liquidate: top };
    assert_eq!(direct_profit(&pair(), &sizing, &num(2), &num(1)), Err(MathError::Overflow));
    // The value fits, a hundred times the value does not.
    let mut unit_one = pair();
    unit_one.collateral_unit = num(1);
    assert_eq!(direct_profit(&unit_one, &sizing, &num(1), &num(1)), Err(MathError::Overflow));
    let mut no_unit = pair();
    no_unit.debt_unit = num(0);
    let sizing = LiquidationSizing { debt_to_cover: num(500), collateral_to_liquidate: num(1) };
    assert_eq!(direct_profit(&no_unit, &sizing, &num(1), &num(1)), Err(MathError::DivideByZero));
}

#[test]
fn helper_profit_values_the_gain_at_the_collateral_price() {
    assert_eq!(helper_profit(&signed(1000), &num(50_000_000)), Ok(signed(500)));
    assert_eq!(helper_profit(&signed(1001), &num(50_000_000)), Ok(signed(500)));
    assert_eq!(helper_profit(&signed(-1001), &num(50_000_000)), Ok(signed(-500)));
    assert_eq!(helper_profit(&signed(-1), &num(50_000_000)), Ok(signed(0)));
    assert_eq!(helper_profit(&signed(0), &num(50_000_000)), Ok(signed(0)));
    assert_eq!(helper_profit(&signed(7), &num(100_000_000)), Ok(signed(7)));
    assert_eq!(helper_profit(&I256::max_value(), &num(2)), Err(MathError::Overflow));
    assert_eq!(helper_profit(&I256::min_value(), &num(2)), Err(MathError::Overflow));
    assert_eq!(helper_profit(&signed(1), &U256::max_value()), Err(MathError::Overflow));
}

#[test]
fn direct_evaluation_of_a_position() {
    let op = evaluate_direct(
        &pair(),
        &prices(),
        &addr(WETH),
        &num(0),
        &num(200 * WAD),
        &num(300 * WAD),
        &num(1000 * WAD),
    )
    .unwrap();
    assert_eq!(op.borrower, addr(50));
    assert_eq!(op.collateral, addr(COLLATERAL));
    assert_eq!(op.debt, addr(DEBT));
    assert_eq!(op.debt_to_cover, num(500 * WAD));
    assert_eq!(op.profit_eth, signed(625_000_000));
    assert_eq!(op.profit_factor, signed(105));
    assert_eq!(op.collateral_symbol, "COL");
    assert_eq!(op.debt_symbol, "DBT");
}

#[test]
fn direct_evaluation_with_the_native_asset_as_debt() {
    let mut pair = pair();
    pair.debt = addr(WETH);
    pair.debt_price = num(200);
    // 10 of debt cost 2000, which is 20 of collateral, 21 with the bonus.
    let op = evaluate_direct(
        &pair,
        &prices(),
        &addr(WETH),
        &num(0),
        &num(10 * WAD),
        &num(0),
        &num(1000 * WAD),
    )
    .unwrap();
    assert_eq!(op.debt_to_cover, num(10 * WAD));
    // Seized: 21 * 0.5 = 10.5 native; repaid: 10 native; eight decimals.
    assert_eq!(op.profit_eth, signed(50_000_000));
    assert_eq!(op.profit_factor, signed(105));
}

#[test]
fn a_refused_sizing_comes_before_a_missing_price() {
    let none = PriceSnapshot::new();
    assert_eq!(
        evaluate_direct(&pair(), &none, &addr(WETH), &num(0), &num(0), &num(0), &num(1)).err(),
        Some(EvalError::NoDebtToCover)
    );
    assert_eq!(
        evaluate_direct(&pair(), &none, &addr(WETH), &num(0), &num(500), &num(0), &num(1000))
            .err(),
        Some(EvalError::Price(PriceError::MissingAssetPrice))
    );
    let without_native = PriceSnapshot::from_batch(
        &vec![addr(COLLATERAL), addr(DEBT)],
        &vec![num(100), num(50)],
    );
    assert_eq!(
        evaluate_direct(
            &pair(),
            &without_native,
            &addr(WETH),
            &num(0),
            &num(500),
            &num(0),
            &num(1000)
        )
        .err(),
        Some(EvalError::Price(PriceError::MissingNativePrice))
    );
    assert_eq!(
        prepare_helper(&pair(), &none, &addr(WETH), &num(0), &num(500), &num(0), &num(1000))
            .err(),
        Some(EvalError::Price(PriceError::MissingAssetPrice))
    );
}

#[test]
fn an_arithmetic_failure_of_the_estimate_is_reported() {
    let mut pair = pair();
    pair.collateral_unit = num(1);
    pair.debt_unit = num(1);
    pair.collateral_price = num(1);
    pair.debt_price = num(1);
    let huge = U256::from_limbs(Signed::MAX.into_raw().0);
    let snap = PriceSnapshot::from_batch(
        &vec![addr(COLLATERAL), addr(DEBT), addr(WETH)],
        &vec![num(1), num(1), num(1)],
    );
    // Native prices are 10^8: the value of the collateral leaves the signed range.
    let r = evaluate_direct(
        &pair,
        &snap,
        &addr(WETH),
        &num(0),
        &U256::from_limbs((Signed::MAX.into_raw() / ethers::types::U256::from(20000)).0),
        &num(0),
        &huge,
    );
    assert_eq!(r.err(), Some(EvalError::Arithmetic(MathError::Overflow)));
}

#[test]
fn helper_evaluation_waits_for_the_simulation() {
    let draft = prepare_helper(
        &pair(),
        &prices(),
        &addr(WETH),
        &num(0),
        &num(200 * WAD),
        &num(300 * WAD),
        &num(1000 * WAD),
    )
    .unwrap();
    assert_eq!(draft.opportunity.debt_to_cover, num(500 * WAD));
    assert_eq!(draft.opportunity.profit_eth, I256::zero());
    assert_eq!(draft.opportunity.profit_factor, I256::zero());
    assert_eq!(draft.collateral_native, num(50_000_000));

    let op = settle_helper(draft, &signed(1_000_000)).unwrap();
    assert_eq!(op.borrower, addr(50));
    assert_eq!(op.debt_to_cover, num(500 * WAD));
    assert_eq!(op.profit_eth, signed(500_000));
    assert_eq!(op.profit_factor, I256::zero());
    assert_eq!(op.collateral_symbol, "COL");
}

#[test]
fn helper_settlement_reports_an_overflow() {
    let draft = prepare_helper(
        &pair(),
        &prices(),
        &addr(WETH),
        &num(0),
        &num(500),
        &num(0),
        &num(1000),
    )
    .unwrap();
    assert_eq!(
        settle_helper(draft, &I256::max_value()).err(),
        Some(EvalError::Arithmetic(MathError::Overflow))
    );
}
