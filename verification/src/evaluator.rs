//! How much of an underwater position to liquidate, and what it would earn.
//!
//! The evaluation runs in stages, because the protocol has to be asked for
//! two balances in between: [`select_pair`] fixes the pair of assets and what
//! the registry and the snapshot say of them; [`size_liquidation`] turns the
//! borrower's outstanding debt and collateral balance into the debt to cover
//! and the collateral to seize. The `opportunity` module puts a profit on
//! the result.

use crate::address::Address;
use crate::arith::{lemma_cancel_lt, lemma_div_bounds};
use crate::borrowers::{Borrower, BorrowerModel};
use crate::checked::{product, quotient, sum, try_add, try_div, try_mul};
use crate::prices::{quoted, PriceError, PriceSnapshot, Quote};
use crate::tokens::{token_of, TokenModel, TokenRegistry};
use crate::u256::{u256_max, U256};
use crate::wad_ray_math::{outcome, MathError};
use vstd::arithmetic::power::pow;
use vstd::prelude::*;

verus! {

/// Above this health factor (0.95 in wads) only the default fraction of the
/// debt may be repaid.
pub const LIQUIDATION_CLOSE_FACTOR_THRESHOLD: u128 = 950_000_000_000_000_000;

/// The whole debt, in basis points.
pub const MAX_LIQUIDATION_CLOSE_FACTOR: u64 = 10000;

/// Half the debt, in basis points.
pub const DEFAULT_LIQUIDATION_CLOSE_FACTOR: u64 = 5000;

/// Why a borrower yields no opportunity.
#[derive(Clone, Copy, Debug, PartialEq, Eq, Structural)]
pub enum EvalError {
    /// The book has no borrower with the candidate's address.
    UnknownBorrower,
    /// The borrower has supplied nothing.
    NoCollateral,
    /// The borrower has borrowed nothing.
    NoDebt,
    /// The snapshot has no price for the collateral asset.
    NoCollateralPrice,
    /// The snapshot has no price for the debt asset.
    NoDebtPrice,
    /// The registry does not know the collateral asset.
    NoCollateralConfig,
    /// The registry does not know the debt asset.
    NoDebtConfig,
    /// Nothing of the debt can be covered.
    NoDebtToCover,
    /// Collateral and debt are the same asset.
    SameAsset,
    /// A price in the native currency could not be given.
    Price(PriceError),
    /// A computation overflowed or divided by zero.
    Arithmetic(MathError),
}

/// `a` scaled by `bps` basis points, rounded half up:
/// `(5000 + a * bps) / 10000`.
pub open spec fn percent_mul_model(a: nat, bps: u64) -> Result<nat, MathError> {
    if a * bps + 5000 > u256_max() {
        Err(MathError::Overflow)
    } else {
        Ok(((5000 + a * bps) / 10000) as nat)
    }
}

/// `a` divided by `bps` basis points, rounded half up:
/// `(bps / 2 + a * 10000) / bps`.
pub open spec fn percent_div_model(a: nat, bps: u64) -> Result<nat, MathError> {
    if a * 10000 + bps / 2 > u256_max() {
        Err(MathError::Overflow)
    } else if bps == 0 {
        Err(MathError::DivideByZero)
    } else {
        Ok(((bps / 2 + a * 10000) / (bps as int)) as nat)
    }
}

/// A product that follows an earlier step.
pub open spec fn then_product(a: Result<nat, MathError>, b: nat) -> Result<nat, MathError> {
    match a {
        Ok(v) => product(v, b),
        Err(e) => Err(e),
    }
}

/// A quotient of two earlier steps; a failure of the numerator comes first.
pub open spec fn then_quotient(a: Result<nat, MathError>, b: Result<nat, MathError>) -> Result<
    nat,
    MathError,
> {
    match a {
        Ok(n) => match b {
            Ok(d) => quotient(n, d),
            Err(e) => Err(e),
        },
        Err(e) => Err(e),
    }
}

/// `percent_div` of an earlier step.
pub open spec fn then_percent_div(a: Result<nat, MathError>, bps: u64) -> Result<nat, MathError> {
    match a {
        Ok(v) => percent_div_model(v, bps),
        Err(e) => Err(e),
    }
}

/// Scales by basis points, rounding half up.
pub fn percent_mul(a: &U256, bps: u64) -> (r: Result<U256, MathError>)
    ensures
        outcome(r) == percent_mul_model(a@, bps),
{
    let scaled = match try_mul(a, &U256::from_u64(bps)) {
        Ok(v) => v,
        Err(e) => {
            return Err(e);
        },
    };
    let padded = match try_add(&U256::from_u64(5000), &scaled) {
        Ok(v) => v,
        Err(e) => {
            return Err(e);
        },
    };
    try_div(&padded, &U256::from_u64(10000))
}

/// Undoes a scaling by basis points, rounding half up.
pub fn percent_div(a: &U256, bps: u64) -> (r: Result<U256, MathError>)
    ensures
        outcome(r) == percent_div_model(a@, bps),
{
    let half_bps: u64 = bps / 2;
    let scaled = match try_mul(a, &U256::from_u64(10000)) {
        Ok(v) => v,
        Err(e) => {
            return Err(e);
        },
    };
    let padded = match try_add(&U256::from_u64(half_bps), &scaled) {
        Ok(v) => v,
        Err(e) => {
            return Err(e);
        },
    };
    try_div(&padded, &U256::from_u64(bps))
}

/// The fraction of the debt that may be repaid at once, in basis points:
/// half of it while the health factor is above 0.95, all of it otherwise.
pub open spec fn close_factor_model(health_factor: nat) -> u64 {
    if health_factor > LIQUIDATION_CLOSE_FACTOR_THRESHOLD {
        DEFAULT_LIQUIDATION_CLOSE_FACTOR
    } else {
        MAX_LIQUIDATION_CLOSE_FACTOR
    }
}

/// The close factor for a health factor.
pub fn close_factor(health_factor: &U256) -> (r: u64)
    ensures
        r == close_factor_model(health_factor@),
{
    if health_factor.gt(&U256::from_u128(LIQUIDATION_CLOSE_FACTOR_THRESHOLD)) {
        DEFAULT_LIQUIDATION_CLOSE_FACTOR
    } else {
        MAX_LIQUIDATION_CLOSE_FACTOR
    }
}

/// The pair of assets chosen for a borrower, with what is known of them.
#[derive(Debug)]
pub struct LiquidationPair {
    pub borrower: Address,
    pub collateral: Address,
    pub debt: Address,
    /// The interest-bearing token of the collateral asset: the borrower's
    /// balance of it is the collateral that can be seized.
    pub a_token: Address,
    pub collateral_price: U256,
    pub debt_price: U256,
    /// `10^decimals` of the collateral asset.
    pub collateral_unit: U256,
    /// `10^decimals` of the debt asset.
    pub debt_unit: U256,
    pub liquidation_bonus: u64,
    pub collateral_symbol: String,
    pub debt_symbol: String,
}

/// A pair as the contracts see it.
pub struct PairModel {
    pub borrower: Address,
    pub collateral: Address,
    pub debt: Address,
    pub a_token: Address,
    pub collateral_price: nat,
    pub debt_price: nat,
    pub collateral_unit: nat,
    pub debt_unit: nat,
    pub liquidation_bonus: u64,
    pub collateral_symbol: Seq<char>,
    pub debt_symbol: Seq<char>,
}

impl View for LiquidationPair {
    type V = PairModel;

    open spec fn view(&self) -> PairModel {
        PairModel {
            borrower: self.borrower,
            collateral: self.collateral,
            debt: self.debt,
            a_token: self.a_token,
            collateral_price: self.collateral_price@,
            debt_price: self.debt_price@,
            collateral_unit: self.collateral_unit@,
            debt_unit: self.debt_unit@,
            liquidation_bonus: self.liquidation_bonus,
            collateral_symbol: self.collateral_symbol@,
            debt_symbol: self.debt_symbol@,
        }
    }
}

/// The pair evaluated for a borrower: the collateral asset and the debt
/// asset that it reported first, with their prices, their units and the
/// bonus on the collateral.
pub open spec fn pair_model(borrower: BorrowerModel, tokens: Seq<TokenModel>, quotes: Seq<Quote>)
    -> Result<PairModel, EvalError> {
    if borrower.collateral.len() == 0 {
        Err(EvalError::NoCollateral)
    } else if borrower.debt.len() == 0 {
        Err(EvalError::NoDebt)
    } else if quoted(quotes, borrower.collateral[0]) is None {
        Err(EvalError::NoCollateralPrice)
    } else if quoted(quotes, borrower.debt[0]) is None {
        Err(EvalError::NoDebtPrice)
    } else if token_of(tokens, borrower.collateral[0]) is None {
        Err(EvalError::NoCollateralConfig)
    } else if token_of(tokens, borrower.debt[0]) is None {
        Err(EvalError::NoDebtConfig)
    } else {
        let collateral = token_of(tokens, borrower.collateral[0])->Some_0;
        let debt = token_of(tokens, borrower.debt[0])->Some_0;
        if pow(10, collateral.decimals as nat) > u256_max() || pow(10, debt.decimals as nat)
            > u256_max() {
            Err(EvalError::Arithmetic(MathError::Overflow))
        } else {
            Ok(
                PairModel {
                    borrower: borrower.address,
                    collateral: borrower.collateral[0],
                    debt: borrower.debt[0],
                    a_token: collateral.a_address,
                    collateral_price: quoted(quotes, borrower.collateral[0])->Some_0,
                    debt_price: quoted(quotes, borrower.debt[0])->Some_0,
                    collateral_unit: pow(10, collateral.decimals as nat) as nat,
                    debt_unit: pow(10, debt.decimals as nat) as nat,
                    liquidation_bonus: collateral.liquidation_bonus,
                    collateral_symbol: collateral.symbol,
                    debt_symbol: debt.symbol,
                },
            )
        }
    }
}

/// What a pair outcome stands for.
pub open spec fn pair_outcome(r: Result<LiquidationPair, EvalError>) -> Result<
    PairModel,
    EvalError,
> {
    match r {
        Ok(p) => Ok(p@),
        Err(e) => Err(e),
    }
}

/// Chooses the pair of assets to evaluate for a borrower: the first
/// collateral asset and the first debt asset that its events reported.
pub fn select_pair(borrower: &Borrower, tokens: &TokenRegistry, prices: &PriceSnapshot) -> (r:
    Result<LiquidationPair, EvalError>)
    ensures
        pair_outcome(r) == pair_model(borrower@, tokens@, prices@),
{
    let collateral = match borrower.collateral().first() {
        Some(a) => a,
        None => {
            return Err(EvalError::NoCollateral);
        },
    };
    let debt = match borrower.debt().first() {
        Some(a) => a,
        None => {
            return Err(EvalError::NoDebt);
        },
    };
    let collateral_price = match prices.get(&collateral) {
        Some(p) => p,
        None => {
            return Err(EvalError::NoCollateralPrice);
        },
    };
    let debt_price = match prices.get(&debt) {
        Some(p) => p,
        None => {
            return Err(EvalError::NoDebtPrice);
        },
    };
    let collateral_config = match tokens.get(&collateral) {
        Some(t) => t,
        None => {
            return Err(EvalError::NoCollateralConfig);
        },
    };
    let debt_config = match tokens.get(&debt) {
        Some(t) => t,
        None => {
            return Err(EvalError::NoDebtConfig);
        },
    };
    let collateral_unit = match U256::checked_exp10(collateral_config.decimals) {
        Some(u) => u,
        None => {
            return Err(EvalError::Arithmetic(MathError::Overflow));
        },
    };
    let debt_unit = match U256::checked_exp10(debt_config.decimals) {
        Some(u) => u,
        None => {
            return Err(EvalError::Arithmetic(MathError::Overflow));
        },
    };
    Ok(
        LiquidationPair {
            borrower: borrower.address(),
            collateral,
            debt,
            a_token: collateral_config.a_address,
            collateral_price,
            debt_price,
            collateral_unit,
            debt_unit,
            liquidation_bonus: collateral_config.liquidation_bonus,
            collateral_symbol: collateral_config.symbol.clone(),
            debt_symbol: debt_config.symbol.clone(),
        },
    )
}

/// How much debt to repay and how much collateral that seizes.
#[derive(Clone, Copy, Debug, PartialEq, Eq)]
pub struct LiquidationSizing {
    pub debt_to_cover: U256,
    pub collateral_to_liquidate: U256,
}

/// A sizing as the contracts see it.
pub struct SizingModel {
    pub debt_to_cover: nat,
    pub collateral_to_liquidate: nat,
}

impl View for LiquidationSizing {
    type V = SizingModel;

    open spec fn view(&self) -> SizingModel {
        SizingModel {
            debt_to_cover: self.debt_to_cover@,
            collateral_to_liquidate: self.collateral_to_liquidate@,
        }
    }
}

/// The debt that the close factor allows to be repaid:
/// `(stable + variable) * close_factor / 10000`.
pub open spec fn allowed_debt(stable_debt: nat, variable_debt: nat, health_factor: nat) -> Result<
    nat,
    MathError,
> {
    then_quotient(
        then_product(sum(stable_debt, variable_debt), close_factor_model(health_factor) as nat),
        Ok(MAX_LIQUIDATION_CLOSE_FACTOR as nat),
    )
}

/// The collateral worth the given debt, before the bonus:
/// `(debt_price * debt * collateral_unit) / (collateral_price * debt_unit)`.
pub open spec fn base_collateral(pair: PairModel, debt_to_cover: nat) -> Result<nat, MathError> {
    then_quotient(
        then_product(product(pair.debt_price, debt_to_cover), pair.collateral_unit),
        product(pair.collateral_price, pair.debt_unit),
    )
}

/// The collateral that covering the given debt seizes: what the debt is
/// worth, with the bonus on top.
pub open spec fn seized_collateral(pair: PairModel, debt_to_cover: nat) -> Result<nat, MathError> {
    match base_collateral(pair, debt_to_cover) {
        Ok(base) => percent_mul_model(base, pair.liquidation_bonus),
        Err(e) => Err(e),
    }
}

/// The debt that a given amount of collateral pays for once the bonus is
/// taken out of it:
/// `percent_div((collateral_price * collateral * debt_unit)
///  / (debt_price * collateral_unit), bonus)`.
pub open spec fn debt_for_collateral(pair: PairModel, collateral: nat) -> Result<nat, MathError> {
    then_percent_div(
        then_quotient(
            then_product(product(pair.collateral_price, collateral), pair.debt_unit),
            product(pair.debt_price, pair.collateral_unit),
        ),
        pair.liquidation_bonus,
    )
}

/// A sizing is refused where it covers no debt, and where collateral and
/// debt are one asset.
pub open spec fn accepted(pair: PairModel, sizing: SizingModel) -> Result<SizingModel, EvalError> {
    if sizing.debt_to_cover == 0 {
        Err(EvalError::NoDebtToCover)
    } else if pair.collateral == pair.debt {
        Err(EvalError::SameAsset)
    } else {
        Ok(sizing)
    }
}

/// The sizing of a liquidation: the debt that the close factor allows and
/// the collateral that covering it seizes; or, where the borrower holds
/// less collateral than that, all of its collateral and the debt that this
/// pays for.
pub open spec fn sizing_model(
    pair: PairModel,
    health_factor: nat,
    stable_debt: nat,
    variable_debt: nat,
    collateral_balance: nat,
) -> Result<SizingModel, EvalError> {
    match allowed_debt(stable_debt, variable_debt, health_factor) {
        Err(e) => Err(EvalError::Arithmetic(e)),
        Ok(debt) => match seized_collateral(pair, debt) {
            Err(e) => Err(EvalError::Arithmetic(e)),
            Ok(collateral) => if collateral > collateral_balance {
                match debt_for_collateral(pair, collateral_balance) {
                    Err(e) => Err(EvalError::Arithmetic(e)),
                    Ok(capped) => accepted(
                        pair,
                        SizingModel {
                            debt_to_cover: capped,
                            collateral_to_liquidate: collateral_balance,
                        },
                    ),
                }
            } else {
                accepted(
                    pair,
                    SizingModel { debt_to_cover: debt, collateral_to_liquidate: collateral },
                )
            },
        },
    }
}

/// The close factor never allows more than the outstanding debt.
pub proof fn lemma_allowed_debt_bounded(stable_debt: nat, variable_debt: nat, health_factor: nat)
    requires
        allowed_debt(stable_debt, variable_debt, health_factor) is Ok,
    ensures
        allowed_debt(stable_debt, variable_debt, health_factor)->Ok_0 == ((stable_debt
            + variable_debt) * close_factor_model(health_factor)) / 10000,
        allowed_debt(stable_debt, variable_debt, health_factor)->Ok_0 <= stable_debt
            + variable_debt,
{
    let total = stable_debt + variable_debt;
    let factor = close_factor_model(health_factor) as nat;
    assert(total * factor <= total * 10000) by (nonlinear_arith)
        requires
            factor <= 10000,
    ;
    lemma_div_bounds((total * factor) as int, 10000);
}

/// Capping at the balance never raises the debt: where covering `debt`
/// would seize more collateral than `balance`, the debt that `balance` pays
/// for is at most `debt`.
pub proof fn lemma_capped_debt_bounded(pair: PairModel, debt: nat, balance: nat)
    requires
        seized_collateral(pair, debt) is Ok,
        seized_collateral(pair, debt)->Ok_0 > balance,
        debt_for_collateral(pair, balance) is Ok,
    ensures
        debt_for_collateral(pair, balance)->Ok_0 <= debt,
{
    let cp = pair.collateral_price as int;
    let dp = pair.debt_price as int;
    let cu = pair.collateral_unit as int;
    let du = pair.debt_unit as int;
    let bonus = pair.liquidation_bonus as int;
    let half = bonus / 2;
    let worth = cp * du;
    let cost = dp * cu;
    let d = debt as int;
    let bal = balance as int;
    let base = base_collateral(pair, debt)->Ok_0 as int;
    let seized = seized_collateral(pair, debt)->Ok_0 as int;
    let raw = then_quotient(
        then_product(product(pair.collateral_price, balance), pair.debt_unit),
        product(pair.debt_price, pair.collateral_unit),
    )->Ok_0 as int;
    let capped = debt_for_collateral(pair, balance)->Ok_0 as int;

    assert(0 <= dp * d) by (nonlinear_arith)
        requires
            0 <= dp,
            0 <= d,
    ;
    assert(0 <= dp * d * cu) by (nonlinear_arith)
        requires
            0 <= dp * d,
            0 <= cu,
    ;
    assert(0 <= worth) by (nonlinear_arith)
        requires
            worth == cp * du,
            0 <= cp,
            0 <= du,
    ;
    assert(0 <= cp * bal) by (nonlinear_arith)
        requires
            0 <= cp,
            0 <= bal,
    ;
    assert(0 <= cp * bal * du) by (nonlinear_arith)
        requires
            0 <= cp * bal,
            0 <= du,
    ;
    assert(0 <= cost) by (nonlinear_arith)
        requires
            cost == dp * cu,
            0 <= dp,
            0 <= cu,
    ;
    assert(0 <= base * bonus) by (nonlinear_arith)
        requires
            0 <= base,
            0 <= bonus,
    ;
    assert(0 <= raw * 10000) by (nonlinear_arith)
        requires
            0 <= raw,
    ;
    lemma_div_bounds(dp * d * cu, worth);
    lemma_div_bounds(5000 + base * bonus, 10000);
    lemma_div_bounds(cp * bal * du, cost);
    lemma_div_bounds(half + raw * 10000, bonus);
    assert(base == (dp * d * cu) / worth);
    assert(seized == (5000 + base * bonus) / 10000);
    assert(raw == (cp * bal * du) / cost);
    assert(capped == (half + raw * 10000) / bonus);
    // base * worth <= debt * cost, raw * cost <= balance * worth
    assert(dp * d * cu == d * cost) by (nonlinear_arith)
        requires
            cost == dp * cu,
    ;
    assert(cp * bal * du == bal * worth) by (nonlinear_arith)
        requires
            worth == cp * du,
    ;
    let lhs = raw * 10000 * cost;
    assert(lhs <= (base * bonus - 5000) * worth) by (nonlinear_arith)
        requires
            lhs == raw * 10000 * cost,
            raw * cost <= bal * worth,
            10000 * bal <= base * bonus - 5000,
            0 <= worth,
    ;
    assert((base * bonus - 5000) * worth < d * bonus * cost) by (nonlinear_arith)
        requires
            base * worth <= d * cost,
            0 < worth,
            0 <= bonus,
    ;
    assert(d * bonus * cost == (d * bonus) * cost) by (nonlinear_arith);
    lemma_cancel_lt(raw * 10000, d * bonus, cost);
    assert(capped * bonus < (d + 1) * bonus) by (nonlinear_arith)
        requires
            capped * bonus <= half + raw * 10000,
            raw * 10000 < d * bonus,
            half < bonus,
    ;
    lemma_cancel_lt(capped, d + 1, bonus);
}

/// What is seized for a capped debt stays within the balance up to
/// rounding: it exceeds the balance by no more than half a unit of
/// collateral and what half a unit of debt is worth with the bonus.
pub proof fn lemma_capped_collateral_bounded(pair: PairModel, debt: nat, balance: nat)
    requires
        seized_collateral(pair, debt) is Ok,
        seized_collateral(pair, debt)->Ok_0 > balance,
        debt_for_collateral(pair, balance) is Ok,
    ensures
        seized_collateral(pair, debt_for_collateral(pair, balance)->Ok_0) is Ok,
        seized_collateral(pair, debt_for_collateral(pair, balance)->Ok_0)->Ok_0 * 10000 * (
        pair.collateral_price * pair.debt_unit) <= (10000 * balance + 5000) * (
        pair.collateral_price * pair.debt_unit) + (pair.liquidation_bonus / 2) * (pair.debt_price
            * pair.collateral_unit),
{
    lemma_capped_debt_bounded(pair, debt, balance);
    let cp = pair.collateral_price as int;
    let dp = pair.debt_price as int;
    let cu = pair.collateral_unit as int;
    let du = pair.debt_unit as int;
    let bonus = pair.liquidation_bonus as int;
    let half = bonus / 2;
    let worth = cp * du;
    let cost = dp * cu;
    let d = debt as int;
    let bal = balance as int;
    let base = base_collateral(pair, debt)->Ok_0 as int;
    let raw = then_quotient(
        then_product(product(pair.collateral_price, balance), pair.debt_unit),
        product(pair.debt_price, pair.collateral_unit),
    )->Ok_0 as int;
    let capped = debt_for_collateral(pair, balance)->Ok_0 as int;

    assert(0 <= dp * capped <= dp * d) by (nonlinear_arith)
        requires
            0 <= dp,
            0 <= capped <= d,
    ;
    assert(0 <= dp * capped * cu <= dp * d * cu) by (nonlinear_arith)
        requires
            0 <= dp * capped <= dp * d,
            0 <= cu,
    ;
    assert(0 <= worth) by (nonlinear_arith)
        requires
            worth == cp * du,
            0 <= cp,
            0 <= du,
    ;
    assert(0 <= cost) by (nonlinear_arith)
        requires
            cost == dp * cu,
            0 <= dp,
            0 <= cu,
    ;
    assert(0 <= cp * bal) by (nonlinear_arith)
        requires
            0 <= cp,
            0 <= bal,
    ;
    assert(0 <= cp * bal * du) by (nonlinear_arith)
        requires
            0 <= cp * bal,
            0 <= du,
    ;
    assert(0 <= raw * 10000) by (nonlinear_arith)
        requires
            0 <= raw,
    ;
    let lower = (dp * capped * cu) / worth;
    lemma_div_bounds(dp * capped * cu, worth);
    lemma_div_bounds(dp * d * cu, worth);
    vstd::arithmetic::div_mod::lemma_div_is_ordered(dp * capped * cu, dp * d * cu, worth);
    assert(base == (dp * d * cu) / worth);
    assert(0 <= lower <= base);
    assert(0 <= lower * bonus <= base * bonus) by (nonlinear_arith)
        requires
            0 <= lower <= base,
            0 <= bonus,
    ;
    assert(base_collateral(pair, capped as nat) == Ok::<nat, MathError>(lower as nat));
    let seized = (5000 + lower * bonus) / 10000;
    assert(seized_collateral(pair, capped as nat) == Ok::<nat, MathError>(seized as nat));
    lemma_div_bounds(5000 + lower * bonus, 10000);
    lemma_div_bounds(cp * bal * du, cost);
    lemma_div_bounds(half + raw * 10000, bonus);
    assert(raw == (cp * bal * du) / cost);
    assert(capped == (half + raw * 10000) / bonus);
    assert(dp * capped * cu == capped * cost) by (nonlinear_arith)
        requires
            cost == dp * cu,
    ;
    assert(cp * bal * du == bal * worth) by (nonlinear_arith)
        requires
            worth == cp * du,
    ;
    // seized * 10000 * worth <= 5000 * worth + lower * worth * bonus
    //                        <= 5000 * worth + capped * bonus * cost
    //                        <= 5000 * worth + half * cost + 10000 * raw * cost
    //                        <= 5000 * worth + half * cost + 10000 * balance * worth
    let step1 = seized * 10000 * worth;
    assert(step1 <= 5000 * worth + (lower * worth) * bonus) by (nonlinear_arith)
        requires
            step1 == seized * 10000 * worth,
            seized * 10000 <= 5000 + lower * bonus,
            0 <= worth,
    ;
    assert((lower * worth) * bonus <= (capped * bonus) * cost) by (nonlinear_arith)
        requires
            lower * worth <= capped * cost,
            0 <= bonus,
    ;
    assert((capped * bonus) * cost <= half * cost + 10000 * (raw * cost)) by (nonlinear_arith)
        requires
            capped * bonus <= half + raw * 10000,
            0 <= cost,
    ;
    assert(step1 <= (10000 * bal + 5000) * worth + half * cost) by (nonlinear_arith)
        requires
            step1 <= 5000 * worth + (lower * worth) * bonus,
            (lower * worth) * bonus <= (capped * bonus) * cost,
            (capped * bonus) * cost <= half * cost + 10000 * (raw * cost),
            raw * cost <= bal * worth,
    ;
}

/// What holds of every sizing that is accepted: it covers some debt, but
/// no more than the close factor allows, which in turn is no more than the
/// outstanding debt; its two assets differ; it seizes no more collateral
/// than the borrower holds; and what covering its debt seizes stays within
/// the balance up to rounding. Where the borrower's collateral suffices,
/// the sizing is the allowed debt and what it seizes.
pub proof fn lemma_sizing_bounds(
    pair: PairModel,
    health_factor: nat,
    stable_debt: nat,
    variable_debt: nat,
    collateral_balance: nat,
)
    requires
        sizing_model(pair, health_factor, stable_debt, variable_debt, collateral_balance) is Ok,
    ensures
        ({
            let sizing = sizing_model(
                pair,
                health_factor,
                stable_debt,
                variable_debt,
                collateral_balance,
            )->Ok_0;
            let allowed = allowed_debt(stable_debt, variable_debt, health_factor);
            let seized = seized_collateral(pair, sizing.debt_to_cover);
            &&& allowed is Ok
            &&& allowed->Ok_0 == ((stable_debt + variable_debt) * close_factor_model(
                health_factor,
            )) / 10000
            &&& 0 < sizing.debt_to_cover <= allowed->Ok_0 <= stable_debt + variable_debt
            &&& pair.collateral != pair.debt
            &&& sizing.collateral_to_liquidate <= collateral_balance
            &&& seized is Ok
            &&& seized->Ok_0 * 10000 * (pair.collateral_price * pair.debt_unit) <= (10000
                * collateral_balance + 5000) * (pair.collateral_price * pair.debt_unit) + (
            pair.liquidation_bonus / 2) * (pair.debt_price * pair.collateral_unit)
            &&& seized_collateral(pair, allowed->Ok_0) is Ok
            &&& seized_collateral(pair, allowed->Ok_0)->Ok_0 <= collateral_balance ==> sizing
                == (SizingModel {
                debt_to_cover: allowed->Ok_0,
                collateral_to_liquidate: seized_collateral(pair, allowed->Ok_0)->Ok_0,
            })
        }),
{
    lemma_allowed_debt_bounded(stable_debt, variable_debt, health_factor);
    let debt = allowed_debt(stable_debt, variable_debt, health_factor)->Ok_0;
    let collateral = seized_collateral(pair, debt)->Ok_0;
    if collateral > collateral_balance {
        lemma_capped_debt_bounded(pair, debt, collateral_balance);
        lemma_capped_collateral_bounded(pair, debt, collateral_balance);
    } else {
        let worth = pair.collateral_price * pair.debt_unit;
        let cost = pair.debt_price * pair.collateral_unit;
        let half = pair.liquidation_bonus / 2;
        assert(collateral * 10000 * worth <= (10000 * collateral_balance + 5000) * worth + half
            * cost) by (nonlinear_arith)
            requires
                collateral <= collateral_balance,
                0 <= worth,
                0 <= cost,
                0 <= half,
        ;
    }
}

/// What a sizing outcome stands for.
pub open spec fn sizing_outcome(r: Result<LiquidationSizing, EvalError>) -> Result<
    SizingModel,
    EvalError,
> {
    match r {
        Ok(s) => Ok(s@),
        Err(e) => Err(e),
    }
}

fn then_mul(a: Result<U256, MathError>, b: &U256) -> (r: Result<U256, MathError>)
    ensures
        outcome(r) == then_product(outcome(a), b@),
{
    match a {
        Ok(v) => try_mul(&v, b),
        Err(e) => Err(e),
    }
}

fn then_div(a: Result<U256, MathError>, b: Result<U256, MathError>) -> (r: Result<U256, MathError>)
    ensures
        outcome(r) == then_quotient(outcome(a), outcome(b)),
{
    match a {
        Ok(n) => match b {
            Ok(d) => try_div(&n, &d),
            Err(e) => Err(e),
        },
        Err(e) => Err(e),
    }
}

fn compute_allowed_debt(stable_debt: &U256, variable_debt: &U256, health_factor: &U256) -> (r:
    Result<U256, MathError>)
    ensures
        outcome(r) == allowed_debt(stable_debt@, variable_debt@, health_factor@),
{
    let factor = U256::from_u64(close_factor(health_factor));
    then_div(
        then_mul(try_add(stable_debt, variable_debt), &factor),
        Ok(U256::from_u64(MAX_LIQUIDATION_CLOSE_FACTOR)),
    )
}

fn compute_base_collateral(pair: &LiquidationPair, debt_to_cover: &U256) -> (r: Result<
    U256,
    MathError,
>)
    ensures
        outcome(r) == base_collateral(pair@, debt_to_cover@),
{
    then_div(
        then_mul(try_mul(&pair.debt_price, debt_to_cover), &pair.collateral_unit),
        try_mul(&pair.collateral_price, &pair.debt_unit),
    )
}

fn compute_seized_collateral(pair: &LiquidationPair, debt_to_cover: &U256) -> (r: Result<
    U256,
    MathError,
>)
    ensures
        outcome(r) == seized_collateral(pair@, debt_to_cover@),
{
    match compute_base_collateral(pair, debt_to_cover) {
        Ok(base) => percent_mul(&base, pair.liquidation_bonus),
        Err(e) => Err(e),
    }
}

fn compute_debt_for_collateral(pair: &LiquidationPair, collateral: &U256) -> (r: Result<
    U256,
    MathError,
>)
    ensures
        outcome(r) == debt_for_collateral(pair@, collateral@),
{
    let worth = then_div(
        then_mul(try_mul(&pair.collateral_price, collateral), &pair.debt_unit),
        try_mul(&pair.debt_price, &pair.collateral_unit),
    );
    match worth {
        Ok(v) => percent_div(&v, pair.liquidation_bonus),
        Err(e) => Err(e),
    }
}

fn accept(pair: &LiquidationPair, sizing: LiquidationSizing) -> (r: Result<
    LiquidationSizing,
    EvalError,
>)
    ensures
        sizing_outcome(r) == accepted(pair@, sizing@),
{
    if sizing.debt_to_cover.is_zero() {
        Err(EvalError::NoDebtToCover)
    } else if pair.collateral.same(&pair.debt) {
        Err(EvalError::SameAsset)
    } else {
        Ok(sizing)
    }
}

/// Sizes the liquidation of a pair from the borrower's outstanding debt in
/// the debt asset and its balance of the collateral's interest-bearing
/// token.
pub fn size_liquidation(
    pair: &LiquidationPair,
    health_factor: &U256,
    stable_debt: &U256,
    variable_debt: &U256,
    collateral_balance: &U256,
) -> (r: Result<LiquidationSizing, EvalError>)
    ensures
        sizing_outcome(r) == sizing_model(
            pair@,
            health_factor@,
            stable_debt@,
            variable_debt@,
            collateral_balance@,
        ),
{
    let debt = match compute_allowed_debt(stable_debt, variable_debt, health_factor) {
        Ok(v) => v,
        Err(e) => {
            return Err(EvalError::Arithmetic(e));
        },
    };
    let collateral = match compute_seized_collateral(pair, &debt) {
        Ok(v) => v,
        Err(e) => {
            return Err(EvalError::Arithmetic(e));
        },
    };
    if collateral.gt(collateral_balance) {
        let capped = match compute_debt_for_collateral(pair, collateral_balance) {
            Ok(v) => v,
            Err(e) => {
                return Err(EvalError::Arithmetic(e));
            },
        };
        accept(
            pair,
            LiquidationSizing {
                debt_to_cover: capped,
                collateral_to_liquidate: *collateral_balance,
            },
        )
    } else {
        accept(pair, LiquidationSizing { debt_to_cover: debt, collateral_to_liquidate: collateral })
    }
}

} // verus!
