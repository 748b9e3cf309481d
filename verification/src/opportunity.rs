//! Liquidation opportunities: what a sized liquidation would earn in the
//! native currency, in each of the two modes of the agent, and which of
//! many opportunities to act on.

use crate::address::Address;
use crate::evaluator::{
    size_liquidation, sizing_model, EvalError, LiquidationPair, LiquidationSizing, PairModel,
    SizingModel,
};
use crate::i256::{i256_max, i256_min, lemma_i256_bounded, truncated_quotient, I256};
use crate::prices::{native_price, PriceSnapshot, Quote, PRICE_ONE};
use crate::u256::U256;
use crate::wad_ray_math::MathError;
use vstd::prelude::*;

verus! {

/// A liquidation that could be executed, with its estimated profit.
#[derive(Debug)]
pub struct LiquidationOpportunity {
    pub borrower: Address,
    pub collateral: Address,
    pub debt: Address,
    pub debt_to_cover: U256,
    /// The estimated profit in the native currency; it may be negative.
    pub profit_eth: I256,
    pub collateral_symbol: String,
    pub debt_symbol: String,
    /// A hundred times the value seized over the value repaid; zero where
    /// it is not estimated.
    pub profit_factor: I256,
}

/// An opportunity as the contracts see it.
pub struct OpportunityModel {
    pub borrower: Address,
    pub collateral: Address,
    pub debt: Address,
    pub debt_to_cover: nat,
    pub profit_eth: int,
    pub collateral_symbol: Seq<char>,
    pub debt_symbol: Seq<char>,
    pub profit_factor: int,
}

impl View for LiquidationOpportunity {
    type V = OpportunityModel;

    open spec fn view(&self) -> OpportunityModel {
        OpportunityModel {
            borrower: self.borrower,
            collateral: self.collateral,
            debt: self.debt,
            debt_to_cover: self.debt_to_cover@,
            profit_eth: self.profit_eth@,
            collateral_symbol: self.collateral_symbol@,
            debt_symbol: self.debt_symbol@,
            profit_factor: self.profit_factor@,
        }
    }
}

/// The opportunity for a pair and a sizing, with the given estimates.
pub open spec fn opportunity_of(pair: PairModel, sizing: SizingModel, profit: int, factor: int)
    -> OpportunityModel {
    OpportunityModel {
        borrower: pair.borrower,
        collateral: pair.collateral,
        debt: pair.debt,
        debt_to_cover: sizing.debt_to_cover,
        profit_eth: profit,
        collateral_symbol: pair.collateral_symbol,
        debt_symbol: pair.debt_symbol,
        profit_factor: factor,
    }
}

/// The value of an amount of an asset in the native currency, as a signed
/// number: `price * amount / unit`.
pub open spec fn native_value(price: nat, amount: nat, unit: nat) -> Result<int, MathError> {
    if price > i256_max() || amount > i256_max() || price * amount > i256_max() || unit
        > i256_max() {
        Err(MathError::Overflow)
    } else if unit == 0 {
        Err(MathError::DivideByZero)
    } else {
        Ok(((price * amount) / unit) as int)
    }
}

/// The two estimates of the direct mode.
pub struct ProfitModel {
    pub profit: int,
    pub factor: int,
}

/// The estimates of the direct mode: the profit is the value of the
/// collateral seized less the value of the debt repaid, and the factor is a
/// hundred times the first over the second (zero where nothing is repaid).
pub open spec fn direct_profit_model(
    pair: PairModel,
    sizing: SizingModel,
    collateral_native: nat,
    debt_native: nat,
) -> Result<ProfitModel, MathError> {
    match native_value(collateral_native, sizing.collateral_to_liquidate, pair.collateral_unit) {
        Err(e) => Err(e),
        Ok(seized) => match native_value(debt_native, sizing.debt_to_cover, pair.debt_unit) {
            Err(e) => Err(e),
            Ok(repaid) => if seized * 100 > i256_max() {
                Err(MathError::Overflow)
            } else {
                Ok(
                    ProfitModel {
                        profit: seized - repaid,
                        factor: if repaid == 0 {
                            0
                        } else {
                            (seized * 100) / repaid
                        },
                    },
                )
            },
        },
    }
}

/// The profit of the helper mode: the gain that the simulation reported,
/// valued at the collateral's native price, `gain * price / 10^8`, rounded
/// toward zero.
pub open spec fn helper_profit_model(gain: int, collateral_native: nat) -> Result<int, MathError> {
    if collateral_native > i256_max() || gain * collateral_native > i256_max() || gain
        * collateral_native < i256_min() {
        Err(MathError::Overflow)
    } else {
        Ok(truncated_quotient(gain * collateral_native, PRICE_ONE as int))
    }
}

/// The opportunity of the direct mode: the sizing, then the native prices
/// of collateral and debt, then the estimates.
pub open spec fn direct_model(
    pair: PairModel,
    quotes: Seq<Quote>,
    wrapped_native: Address,
    health_factor: nat,
    stable_debt: nat,
    variable_debt: nat,
    collateral_balance: nat,
) -> Result<OpportunityModel, EvalError> {
    match sizing_model(pair, health_factor, stable_debt, variable_debt, collateral_balance) {
        Err(e) => Err(e),
        Ok(sizing) => match native_price(quotes, wrapped_native, pair.collateral) {
            Err(e) => Err(EvalError::Price(e)),
            Ok(collateral_native) => match native_price(quotes, wrapped_native, pair.debt) {
                Err(e) => Err(EvalError::Price(e)),
                Ok(debt_native) => match direct_profit_model(
                    pair,
                    sizing,
                    collateral_native,
                    debt_native,
                ) {
                    Err(e) => Err(EvalError::Arithmetic(e)),
                    Ok(p) => Ok(opportunity_of(pair, sizing, p.profit, p.factor)),
                },
            },
        },
    }
}

/// What the helper mode knows before the simulation: the opportunity
/// without estimates, and the native price of the collateral.
pub struct DraftModel {
    pub opportunity: OpportunityModel,
    pub collateral_native: nat,
}

/// The draft of the helper mode: the sizing, then the native prices of
/// collateral and debt.
pub open spec fn draft_model(
    pair: PairModel,
    quotes: Seq<Quote>,
    wrapped_native: Address,
    health_factor: nat,
    stable_debt: nat,
    variable_debt: nat,
    collateral_balance: nat,
) -> Result<DraftModel, EvalError> {
    match sizing_model(pair, health_factor, stable_debt, variable_debt, collateral_balance) {
        Err(e) => Err(e),
        Ok(sizing) => match native_price(quotes, wrapped_native, pair.collateral) {
            Err(e) => Err(EvalError::Price(e)),
            Ok(collateral_native) => match native_price(quotes, wrapped_native, pair.debt) {
                Err(e) => Err(EvalError::Price(e)),
                Ok(debt_native) => Ok(
                    DraftModel {
                        opportunity: opportunity_of(pair, sizing, 0, 0),
                        collateral_native,
                    },
                ),
            },
        },
    }
}

/// The opportunity of the helper mode once the simulation has reported its
/// gain.
pub open spec fn settled_model(draft: DraftModel, gain: int) -> Result<
    OpportunityModel,
    EvalError,
> {
    match helper_profit_model(gain, draft.collateral_native) {
        Err(e) => Err(EvalError::Arithmetic(e)),
        Ok(profit) => Ok(
            OpportunityModel {
                borrower: draft.opportunity.borrower,
                collateral: draft.opportunity.collateral,
                debt: draft.opportunity.debt,
                debt_to_cover: draft.opportunity.debt_to_cover,
                profit_eth: profit,
                collateral_symbol: draft.opportunity.collateral_symbol,
                debt_symbol: draft.opportunity.debt_symbol,
                profit_factor: draft.opportunity.profit_factor,
            },
        ),
    }
}

/// What an opportunity outcome stands for.
pub open spec fn opportunity_outcome(r: Result<LiquidationOpportunity, EvalError>) -> Result<
    OpportunityModel,
    EvalError,
> {
    match r {
        Ok(op) => Ok(op@),
        Err(e) => Err(e),
    }
}

/// The number a signed outcome stands for.
pub open spec fn signed_outcome(r: Result<I256, MathError>) -> Result<int, MathError> {
    match r {
        Ok(v) => Ok(v@),
        Err(e) => Err(e),
    }
}

fn compute_native_value(price: &U256, amount: &U256, unit: &U256) -> (r: Result<I256, MathError>)
    ensures
        signed_outcome(r) == native_value(price@, amount@, unit@),
{
    let p = match I256::try_from_u256(*price) {
        Some(v) => v,
        None => {
            return Err(MathError::Overflow);
        },
    };
    let a = match I256::try_from_u256(*amount) {
        Some(v) => v,
        None => {
            return Err(MathError::Overflow);
        },
    };
    proof {
        assert(0 <= p@ * a@) by (nonlinear_arith)
            requires
                0 <= p@,
                0 <= a@,
        ;
        assert(p@ * a@ == price@ * amount@) by (nonlinear_arith)
            requires
                p@ == price@,
                a@ == amount@,
        ;
    }
    let value = match p.checked_mul(&a) {
        Some(v) => v,
        None => {
            return Err(MathError::Overflow);
        },
    };
    let u = match I256::try_from_u256(*unit) {
        Some(v) => v,
        None => {
            return Err(MathError::Overflow);
        },
    };
    match value.checked_div(&u) {
        Some(v) => Ok(v),
        None => Err(MathError::DivideByZero),
    }
}

/// The two estimates of the direct mode.
#[derive(Clone, Copy, Debug, PartialEq, Eq)]
pub struct DirectProfit {
    pub profit: I256,
    pub factor: I256,
}

/// What a profit outcome stands for.
pub open spec fn profit_outcome(r: Result<DirectProfit, MathError>) -> Result<
    ProfitModel,
    MathError,
> {
    match r {
        Ok(p) => Ok(ProfitModel { profit: p.profit@, factor: p.factor@ }),
        Err(e) => Err(e),
    }
}

/// Estimates profit and profit factor of a sized liquidation from the
/// native prices of its two assets.
pub fn direct_profit(
    pair: &LiquidationPair,
    sizing: &LiquidationSizing,
    collateral_native: &U256,
    debt_native: &U256,
) -> (r: Result<DirectProfit, MathError>)
    ensures
        profit_outcome(r) == direct_profit_model(pair@, sizing@, collateral_native@, debt_native@),
{
    let seized = match compute_native_value(
        collateral_native,
        &sizing.collateral_to_liquidate,
        &pair.collateral_unit,
    ) {
        Ok(v) => v,
        Err(e) => {
            return Err(e);
        },
    };
    let repaid = match compute_native_value(debt_native, &sizing.debt_to_cover, &pair.debt_unit) {
        Ok(v) => v,
        Err(e) => {
            return Err(e);
        },
    };
    proof {
        lemma_i256_bounded(seized);
        lemma_i256_bounded(repaid);
        lemma_native_value_not_negative(
            collateral_native@,
            sizing.collateral_to_liquidate@,
            pair.collateral_unit@,
        );
        lemma_native_value_not_negative(debt_native@, sizing.debt_to_cover@, pair.debt_unit@);
    }
    let profit = match seized.checked_sub(&repaid) {
        Some(v) => v,
        None => {
            return Err(MathError::Overflow);
        },
    };
    let scaled = match seized.checked_mul(&I256::from_u64(100)) {
        Some(v) => v,
        None => {
            return Err(MathError::Overflow);
        },
    };
    let factor = match scaled.checked_div(&repaid) {
        Some(v) => v,
        None => I256::zero(),
    };
    Ok(DirectProfit { profit, factor })
}

/// A value in the native currency is never negative.
pub proof fn lemma_native_value_not_negative(price: nat, amount: nat, unit: nat)
    ensures
        native_value(price, amount, unit) matches Ok(v) ==> 0 <= v <= i256_max(),
{
    if native_value(price, amount, unit) is Ok {
        crate::arith::lemma_div_bounds((price * amount) as int, unit as int);
        assert((price * amount) / unit <= price * amount) by (nonlinear_arith)
            requires
                0 < unit,
                0 <= price * amount,
                ((price * amount) / unit) * unit <= price * amount,
                0 <= (price * amount) / unit,
        ;
    }
}

/// Values the gain that the simulation reported at the collateral's native
/// price.
pub fn helper_profit(gain: &I256, collateral_native: &U256) -> (r: Result<I256, MathError>)
    ensures
        signed_outcome(r) == helper_profit_model(gain@, collateral_native@),
{
    let price = match I256::try_from_u256(*collateral_native) {
        Some(v) => v,
        None => {
            return Err(MathError::Overflow);
        },
    };
    let scaled = match gain.checked_mul(&price) {
        Some(v) => v,
        None => {
            return Err(MathError::Overflow);
        },
    };
    match scaled.checked_div(&I256::from_u64(PRICE_ONE)) {
        Some(v) => Ok(v),
        None => Err(MathError::DivideByZero),
    }
}

fn assemble(pair: &LiquidationPair, sizing: &LiquidationSizing, profit: I256, factor: I256) -> (r:
    LiquidationOpportunity)
    ensures
        r@ == opportunity_of(pair@, sizing@, profit@, factor@),
{
    LiquidationOpportunity {
        borrower: pair.borrower,
        collateral: pair.collateral,
        debt: pair.debt,
        debt_to_cover: sizing.debt_to_cover,
        profit_eth: profit,
        collateral_symbol: pair.collateral_symbol.clone(),
        debt_symbol: pair.debt_symbol.clone(),
        profit_factor: factor,
    }
}

/// Evaluates a pair in the direct mode, from the borrower's health factor,
/// its outstanding stable and variable debt in the debt asset, and its
/// balance of the collateral's interest-bearing token.
pub fn evaluate_direct(
    pair: &LiquidationPair,
    prices: &PriceSnapshot,
    wrapped_native: &Address,
    health_factor: &U256,
    stable_debt: &U256,
    variable_debt: &U256,
    collateral_balance: &U256,
) -> (r: Result<LiquidationOpportunity, EvalError>)
    ensures
        opportunity_outcome(r) == direct_model(
            pair@,
            prices@,
            *wrapped_native,
            health_factor@,
            stable_debt@,
            variable_debt@,
            collateral_balance@,
        ),
{
    let sizing = match size_liquidation(
        pair,
        health_factor,
        stable_debt,
        variable_debt,
        collateral_balance,
    ) {
        Ok(s) => s,
        Err(e) => {
            return Err(e);
        },
    };
    let collateral_native = match prices.get_asset_price_eth(&pair.collateral, wrapped_native) {
        Ok(p) => p,
        Err(e) => {
            return Err(EvalError::Price(e));
        },
    };
    let debt_native = match prices.get_asset_price_eth(&pair.debt, wrapped_native) {
        Ok(p) => p,
        Err(e) => {
            return Err(EvalError::Price(e));
        },
    };
    match direct_profit(pair, &sizing, &collateral_native, &debt_native) {
        Ok(p) => Ok(assemble(pair, &sizing, p.profit, p.factor)),
        Err(e) => Err(EvalError::Arithmetic(e)),
    }
}

/// What the helper mode knows before the simulation.
#[derive(Debug)]
pub struct HelperDraft {
    /// The opportunity, with both estimates at zero.
    pub opportunity: LiquidationOpportunity,
    /// The native price of the collateral, at which the gain will be valued.
    pub collateral_native: U256,
}

impl View for HelperDraft {
    type V = DraftModel;

    open spec fn view(&self) -> DraftModel {
        DraftModel {
            opportunity: self.opportunity@,
            collateral_native: self.collateral_native@,
        }
    }
}

/// What a draft outcome stands for.
pub open spec fn draft_outcome(r: Result<HelperDraft, EvalError>) -> Result<DraftModel, EvalError> {
    match r {
        Ok(d) => Ok(d@),
        Err(e) => Err(e),
    }
}

/// Evaluates a pair in the helper mode as far as it goes without the
/// simulation: the result names the liquidation to simulate.
pub fn prepare_helper(
    pair: &LiquidationPair,
    prices: &PriceSnapshot,
    wrapped_native: &Address,
    health_factor: &U256,
    stable_debt: &U256,
    variable_debt: &U256,
    collateral_balance: &U256,
) -> (r: Result<HelperDraft, EvalError>)
    ensures
        draft_outcome(r) == draft_model(
            pair@,
            prices@,
            *wrapped_native,
            health_factor@,
            stable_debt@,
            variable_debt@,
            collateral_balance@,
        ),
{
    let sizing = match size_liquidation(
        pair,
        health_factor,
        stable_debt,
        variable_debt,
        collateral_balance,
    ) {
        Ok(s) => s,
        Err(e) => {
            return Err(e);
        },
    };
    let collateral_native = match prices.get_asset_price_eth(&pair.collateral, wrapped_native) {
        Ok(p) => p,
        Err(e) => {
            return Err(EvalError::Price(e));
        },
    };
    match prices.get_asset_price_eth(&pair.debt, wrapped_native) {
        Ok(_) => Ok(
            HelperDraft {
                opportunity: assemble(pair, &sizing, I256::zero(), I256::zero()),
                collateral_native,
            },
        ),
        Err(e) => Err(EvalError::Price(e)),
    }
}

/// Completes a draft of the helper mode with the gain that the simulated
/// liquidation reported.
pub fn settle_helper(draft: HelperDraft, gain: &I256) -> (r: Result<
    LiquidationOpportunity,
    EvalError,
>)
    ensures
        opportunity_outcome(r) == settled_model(draft@, gain@),
{
    match helper_profit(gain, &draft.collateral_native) {
        Ok(profit) => {
            let mut op = draft.opportunity;
            op.profit_eth = profit;
            Ok(op)
        },
        Err(e) => Err(EvalError::Arithmetic(e)),
    }
}

} // verus!
