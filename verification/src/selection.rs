//! Which of the evaluated opportunities to act on.
//!
//! The best opportunity is the one with the greatest estimated profit; among
//! equals, the one found first. It is acted on only where its profit is
//! above zero.

use crate::i256::{i256_min, lemma_i256_bounded, I256};
use crate::opportunity::LiquidationOpportunity;
use crate::checked::{try_div, try_mul};
use crate::u256::{u256_max, U256};
use crate::wad_ray_math::{outcome, MathError};
use vstd::prelude::*;

verus! {

/// The estimated profits of a list of opportunities.
pub open spec fn profits_of(ops: Seq<LiquidationOpportunity>) -> Seq<int> {
    ops.map_values(|op: LiquidationOpportunity| op@.profit_eth)
}

/// Whether position `k` holds the best profit: one above the least number
/// that can be represented, not exceeded anywhere, and not reached before
/// `k`.
pub open spec fn is_best(profits: Seq<int>, k: int) -> bool {
    &&& 0 <= k < profits.len()
    &&& profits[k] > i256_min()
    &&& forall|j: int| 0 <= j < profits.len() ==> profits[j] <= profits[k]
    &&& forall|j: int| 0 <= j < k ==> profits[j] < profits[k]
}

/// At most one position holds the best profit.
pub proof fn lemma_best_unique(profits: Seq<int>, k: int, m: int)
    requires
        is_best(profits, k),
        is_best(profits, m),
    ensures
        k == m,
{
    if k < m {
        assert(profits[k] < profits[m]);
        assert(profits[m] <= profits[k]);
    } else if m < k {
        assert(profits[m] < profits[k]);
        assert(profits[k] <= profits[m]);
    }
}

/// The position of the best opportunity, if any opportunity qualifies.
pub fn best_opportunity(ops: &Vec<LiquidationOpportunity>) -> (r: Option<usize>)
    ensures
        r matches Some(k) ==> is_best(profits_of(ops@), k as int),
        r is None <==> forall|j: int|
            0 <= j < ops@.len() ==> profits_of(ops@)[j] <= i256_min(),
{
    let mut best: Option<usize> = None;
    let mut best_profit = I256::min_value();
    let mut i: usize = 0;
    let ghost profits = profits_of(ops@);
    while i < ops.len()
        invariant
            i <= ops@.len(),
            profits == profits_of(ops@),
            best matches Some(k) ==> k < i && is_best(profits.take(i as int), k as int)
                && best_profit@ == profits[k as int],
            best is None ==> best_profit@ == i256_min() && forall|j: int|
                0 <= j < i ==> profits[j] <= i256_min(),
        decreases ops@.len() - i,
    {
        let ghost seen = profits.take(i as int);
        let ghost next = profits.take(i + 1);
        proof {
            assert(profits[i as int] == ops@[i as int]@.profit_eth);
            lemma_i256_bounded(ops@[i as int].profit_eth);
            assert forall|j: int| 0 <= j < i implies next[j] == seen[j] by {}
        }
        if ops[i].profit_eth.gt(&best_profit) {
            best = Some(i);
            best_profit = ops[i].profit_eth;
            proof {
                assert forall|j: int| 0 <= j < next.len() implies next[j] <= next[i as int] by {
                    if j < i {
                        assert(next[j] == seen[j]);
                    }
                }
                assert forall|j: int| 0 <= j < i implies next[j] < next[i as int] by {
                    assert(next[j] == seen[j]);
                }
            }
        } else {
            proof {
                if best is Some {
                    let k = best->Some_0 as int;
                    assert forall|j: int| 0 <= j < next.len() implies next[j] <= next[k] by {
                        if j < i {
                            assert(next[j] == seen[j]);
                            assert(seen[j] <= seen[k]);
                        }
                    }
                    assert forall|j: int| 0 <= j < k implies next[j] < next[k] by {
                        assert(next[j] == seen[j]);
                        assert(seen[j] < seen[k]);
                    }
                }
            }
        }
        i = i + 1;
    }
    proof {
        assert(profits.take(ops@.len() as int) == profits);
        if best is Some {
            let k = best->Some_0 as int;
            if forall|j: int| 0 <= j < ops@.len() ==> profits_of(ops@)[j] <= i256_min() {
                assert(profits[k] <= i256_min());
            }
        }
    }
    best
}

/// Whether an opportunity is worth acting on: only with a profit above
/// zero.
pub fn is_actionable(op: &LiquidationOpportunity) -> (r: bool)
    ensures
        r == (op@.profit_eth > 0),
{
    op.profit_eth.is_positive()
}

/// What the submission layer is told about the profit at stake.
#[derive(Clone, Copy, Debug, PartialEq, Eq)]
pub struct GasBidInfo {
    /// The share of the profit to bid for inclusion, in percent.
    pub bid_percentage: u64,
    /// The estimated profit in the native currency.
    pub total_profit: U256,
}

/// The gas price that bids the given share of a profit: the price at which
/// the gas would cost the whole profit, times the percentage, over a
/// hundred. This is how the submission layer turns a [`GasBidInfo`] into a
/// price; the strategy itself only hands the bid on.
pub open spec fn bid_gas_price_model(total_profit: nat, bid_percentage: u64, gas_usage: nat)
    -> Result<nat, MathError> {
    if gas_usage == 0 {
        Err(MathError::DivideByZero)
    } else if (total_profit / gas_usage) * bid_percentage > u256_max() {
        Err(MathError::Overflow)
    } else {
        Ok((((total_profit / gas_usage) * bid_percentage) / 100) as nat)
    }
}

/// The gas price to offer for a transaction that is estimated to use
/// `gas_usage` units of gas.
pub fn bid_gas_price(bid: &GasBidInfo, gas_usage: &U256) -> (r: Result<U256, MathError>)
    ensures
        outcome(r) == bid_gas_price_model(bid.total_profit@, bid.bid_percentage, gas_usage@),
{
    let breakeven = match try_div(&bid.total_profit, gas_usage) {
        Ok(v) => v,
        Err(e) => {
            return Err(e);
        },
    };
    let scaled = match try_mul(&breakeven, &U256::from_u64(bid.bid_percentage)) {
        Ok(v) => v,
        Err(e) => {
            return Err(e);
        },
    };
    try_div(&scaled, &U256::from_u64(100))
}

/// The action of a cycle: the opportunity to execute and the bid that goes
/// with it.
#[derive(Clone, Copy, Debug, PartialEq, Eq)]
pub struct TickPlan {
    /// The position of the opportunity in the list that was evaluated.
    pub index: usize,
    pub gas_bid_info: GasBidInfo,
}

/// Decides what a cycle does with the opportunities it evaluated: it
/// executes the best one, provided that its profit is above zero, and
/// otherwise nothing.
pub fn plan_tick(ops: &Vec<LiquidationOpportunity>, bid_percentage: u64) -> (r: Option<TickPlan>)
    ensures
        r matches Some(plan) ==> {
            &&& is_best(profits_of(ops@), plan.index as int)
            &&& profits_of(ops@)[plan.index as int] > 0
            &&& plan.gas_bid_info.bid_percentage == bid_percentage
            &&& plan.gas_bid_info.total_profit@ == profits_of(ops@)[plan.index as int]
        },
        r is None <==> forall|j: int| 0 <= j < ops@.len() ==> profits_of(ops@)[j] <= 0,
{
    let index = match best_opportunity(ops) {
        Some(k) => k,
        None => {
            return None;
        },
    };
    proof {
        assert(profits_of(ops@)[index as int] == ops@[index as int]@.profit_eth);
    }
    if !is_actionable(&ops[index]) {
        return None;
    }
    match ops[index].profit_eth.try_into_u256() {
        Some(total_profit) => Some(
            TickPlan { index, gas_bid_info: GasBidInfo { bid_percentage, total_profit } },
        ),
        None => None,
    }
}

} // verus!
