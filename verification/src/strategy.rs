//! The long-lived state of the agent and the decisions of a cycle.
//!
//! [`AaveStrategy`] owns the checkpoint, the borrowers and the reserves. It
//! never talks to the chain: the caller fetches what a step needs and hands
//! it in, and carries out what the step hands back.

use crate::address::{hex_address, Address};
use crate::borrowers::{
    book_wf, debtor_accounts, ingested, BorrowerBook, BorrowerModel, PositionEvent,
};
use crate::asset_set::first_index;
use crate::borrowers::accounts;
use crate::deployment::{deployment_config, get_deployment_config, Deployment, DeploymentConfig};
use crate::evaluator::{pair_model, pair_outcome, select_pair, EvalError, LiquidationPair};
use crate::execution::{
    allowance_owner, allowance_owner_model, build_liquidation, plan_model, ExecutionError,
    ExecutionPlan,
};
use crate::opportunity::LiquidationOpportunity;
use crate::prices::PriceSnapshot;
use crate::scanner::{ScanModel, UnderwaterScan};
use crate::selection::{is_best, plan_tick, profits_of, TickPlan};
use crate::sync::{block_windows, window_count, window_end, window_start, BlockWindow};
use crate::tokens::{registry_of, registry_wf, ReserveReading, TokenModel, TokenRegistry};
use vstd::prelude::*;

verus! {

/// What the operator configures.
#[derive(Clone, Copy, Debug, PartialEq, Eq, Structural)]
pub struct Config {
    /// The share of a profit to bid for inclusion, in percent.
    pub bid_percentage: u64,
    pub chain_id: u64,
}

/// What is persisted between runs: the checkpoint and the borrowers known
/// at it.
#[derive(Debug)]
pub struct StateCache {
    pub last_block_number: u64,
    pub borrowers: BorrowerBook,
}

/// A cache as the contracts see it.
pub struct CacheModel {
    pub last_block_number: u64,
    pub borrowers: Seq<BorrowerModel>,
}

impl StateCache {
    /// A copy of the cache.
    pub fn duplicate(&self) -> (r: StateCache)
        ensures
            r@ == self@,
    {
        StateCache {
            last_block_number: self.last_block_number,
            borrowers: self.borrowers.duplicate(),
        }
    }
}

impl View for StateCache {
    type V = CacheModel;

    open spec fn view(&self) -> CacheModel {
        CacheModel { last_block_number: self.last_block_number, borrowers: self.borrowers@ }
    }
}

/// The agent's state as the contracts see it.
pub struct StrategyModel {
    pub bid_percentage: u64,
    /// The checkpoint: every event up to this block has been folded in.
    pub last_block_number: u64,
    pub borrowers: Seq<BorrowerModel>,
    pub tokens: Seq<TokenModel>,
    pub chain_id: u64,
    pub config: DeploymentConfig,
    pub liquidator: Address,
    pub use_aave_liquidator: bool,
}

/// What holds of every state that the agent reaches: its book and its
/// registry are well formed.
pub open spec fn state_wf(state: StrategyModel) -> bool {
    book_wf(state.borrowers) && registry_wf(state.tokens)
}

/// The state of an agent that has just been set up.
pub open spec fn initial_model(
    config: Config,
    deployment: Deployment,
    liquidator: Address,
    use_aave_liquidator: bool,
) -> StrategyModel {
    StrategyModel {
        bid_percentage: config.bid_percentage,
        last_block_number: 0,
        borrowers: Seq::empty(),
        tokens: Seq::empty(),
        chain_id: config.chain_id,
        config: deployment_config(deployment),
        liquidator,
        use_aave_liquidator,
    }
}

/// The state after the persisted cache was looked for: with a cache, its
/// checkpoint and borrowers; without one, the block at which the pool was
/// created as checkpoint.
pub open spec fn restored(state: StrategyModel, cache: Option<CacheModel>) -> StrategyModel {
    match cache {
        Some(c) => StrategyModel {
            last_block_number: c.last_block_number,
            borrowers: c.borrowers,
            ..state
        },
        None => StrategyModel { last_block_number: state.config.creation_block, ..state },
    }
}

/// What a state persists.
pub open spec fn cache_of(state: StrategyModel) -> CacheModel {
    CacheModel { last_block_number: state.last_block_number, borrowers: state.borrowers }
}

/// The state after a synchronization pass up to `head`: unchanged where the
/// head is not beyond the checkpoint, and otherwise with the events folded
/// in and the checkpoint at the head.
pub open spec fn synced(state: StrategyModel, head: u64, events: Seq<PositionEvent>)
    -> StrategyModel {
    if head <= state.last_block_number {
        state
    } else {
        StrategyModel {
            last_block_number: head,
            borrowers: ingested(state.borrowers, events),
            ..state
        }
    }
}

/// A cache that is written and loaded again restores the checkpoint and the
/// borrowers that were written.
pub proof fn lemma_cache_round_trip(state: StrategyModel, later: StrategyModel)
    requires
        later.bid_percentage == state.bid_percentage,
        later.tokens == state.tokens,
        later.chain_id == state.chain_id,
        later.config == state.config,
        later.liquidator == state.liquidator,
        later.use_aave_liquidator == state.use_aave_liquidator,
    ensures
        restored(later, Some(cache_of(state))) == state,
        restored(state, Some(cache_of(state))) == state,
        restored(state, None).last_block_number == state.config.creation_block,
{
}

/// The checkpoint never moves back: after a pass it is the greater of the
/// old checkpoint and the head.
pub proof fn lemma_synced_monotone(state: StrategyModel, head: u64, events: Seq<PositionEvent>)
    ensures
        synced(state, head, events).last_block_number >= state.last_block_number,
        synced(state, head, events).last_block_number >= head,
{
}

/// Adopting the cache of a pass makes the agent the state after the pass.
pub proof fn lemma_adopted_pass(state: StrategyModel, head: u64, events: Seq<PositionEvent>)
    ensures
        restored(state, Some(cache_of(synced(state, head, events)))) == synced(
            state,
            head,
            events,
        ),
{
}

/// A pass over events that an earlier pass has folded in changes no
/// borrower.
pub proof fn lemma_repeated_pass(
    state: StrategyModel,
    first_head: u64,
    second_head: u64,
    events: Seq<PositionEvent>,
)
    requires
        state.last_block_number < first_head,
    ensures
        synced(synced(state, first_head, events), second_head, events).borrowers == synced(
            state,
            first_head,
            events,
        ).borrowers,
{
    crate::borrowers::lemma_ingest_twice(state.borrowers, events);
}

/// The agent's state.
#[derive(Debug)]
pub struct AaveStrategy {
    bid_percentage: u64,
    last_block_number: u64,
    borrowers: BorrowerBook,
    tokens: TokenRegistry,
    chain_id: u64,
    config: DeploymentConfig,
    liquidator: Address,
    use_aave_liquidator: bool,
}

impl AaveStrategy {
    pub closed spec fn view(&self) -> StrategyModel {
        StrategyModel {
            bid_percentage: self.bid_percentage,
            last_block_number: self.last_block_number,
            borrowers: self.borrowers@,
            tokens: self.tokens@,
            chain_id: self.chain_id,
            config: self.config,
            liquidator: self.liquidator,
            use_aave_liquidator: self.use_aave_liquidator,
        }
    }

    /// Sets the agent up for a deployment, with the liquidator contract at
    /// the given address.
    pub fn with_liquidator(
        config: Config,
        deployment: Deployment,
        liquidator: Address,
        use_aave_liquidator: bool,
    ) -> (r: AaveStrategy)
        ensures
            r@ == initial_model(config, deployment, liquidator, use_aave_liquidator),
            state_wf(r@),
    {
        AaveStrategy {
            bid_percentage: config.bid_percentage,
            last_block_number: 0,
            borrowers: BorrowerBook::new(),
            tokens: TokenRegistry::new(),
            chain_id: config.chain_id,
            config: get_deployment_config(deployment),
            liquidator,
            use_aave_liquidator,
        }
    }

    /// Sets the agent up for a deployment. `liquidator_address` is the
    /// liquidator contract in hexadecimal; where it is no address, there is
    /// no agent.
    pub fn new(
        config: Config,
        deployment: Deployment,
        liquidator_address: &str,
        use_aave_liquidator: bool,
    ) -> (r: Option<AaveStrategy>)
        ensures
            r is Some <==> hex_address(liquidator_address@) is Some,
            r matches Some(s) ==> hex_address(liquidator_address@) == Some(
                s@.liquidator.bytes@,
            ) && s@ == initial_model(config, deployment, s@.liquidator, use_aave_liquidator),
            r matches Some(s) ==> state_wf(s@),
    {
        match Address::parse(liquidator_address) {
            Some(liquidator) => Some(
                AaveStrategy::with_liquidator(config, deployment, liquidator, use_aave_liquidator),
            ),
            None => None,
        }
    }

    pub fn bid_percentage(&self) -> (r: u64)
        ensures
            r == self@.bid_percentage,
    {
        self.bid_percentage
    }

    /// The checkpoint.
    pub fn last_block_number(&self) -> (r: u64)
        ensures
            r == self@.last_block_number,
    {
        self.last_block_number
    }

    pub fn borrowers(&self) -> (r: &BorrowerBook)
        ensures
            r@ == self@.borrowers,
    {
        &self.borrowers
    }

    pub fn tokens(&self) -> (r: &TokenRegistry)
        ensures
            r@ == self@.tokens,
    {
        &self.tokens
    }

    pub fn chain_id(&self) -> (r: u64)
        ensures
            r == self@.chain_id,
    {
        self.chain_id
    }

    pub fn config(&self) -> (r: &DeploymentConfig)
        ensures
            *r == self@.config,
    {
        &self.config
    }

    pub fn liquidator(&self) -> (r: Address)
        ensures
            r == self@.liquidator,
    {
        self.liquidator
    }

    pub fn use_aave_liquidator(&self) -> (r: bool)
        ensures
            r == self@.use_aave_liquidator,
    {
        self.use_aave_liquidator
    }

    /// Takes over the persisted cache, or, where there is none, starts at
    /// the block at which the pool was created.
    pub fn load_cache(&mut self, cache: Option<StateCache>)
        ensures
            final(self)@ == restored(
                old(self)@,
                match cache {
                    Some(c) => Some(c@),
                    None => None,
                },
            ),
            state_wf(old(self)@) && (cache matches Some(c) ==> book_wf(c@.borrowers)) ==> state_wf(
                final(self)@,
            ),
    {
        match cache {
            Some(c) => {
                self.adopt(c);
            },
            None => {
                self.last_block_number = self.config.creation_block;
            },
        }
    }

    /// Replaces the reserves by what a round of introspection returned.
    pub fn update_token_configs(&mut self, readings: &Vec<ReserveReading>)
        ensures
            final(self)@ == (StrategyModel { tokens: registry_of(readings@), ..old(self)@ }),
            state_wf(old(self)@) ==> state_wf(final(self)@),
    {
        self.tokens.refresh(readings);
    }

    /// The windows in which to ask for events in order to catch up with
    /// `head`: none where the head is not beyond the checkpoint.
    pub fn sync_windows(&self, head: u64) -> (r: Vec<BlockWindow>)
        ensures
            r@.len() == window_count(self@.last_block_number, head),
            forall|i: int|
                0 <= i < r@.len() ==> (#[trigger] r@[i]).from_block == window_start(
                    self@.last_block_number,
                    i,
                ) && r@[i].to_block == window_end(self@.last_block_number, head, i),
    {
        block_windows(self.last_block_number, head)
    }

    /// The outcome of a synchronization pass up to `head`, before it takes
    /// effect: the cache to persist, with the events of all windows folded
    /// in, in the order in which they were fetched, and the checkpoint at
    /// `head`. Where the head is not beyond the checkpoint there is nothing
    /// to persist. The agent itself changes only when it adopts the cache.
    pub fn catch_up(&self, head: u64, events: &Vec<PositionEvent>) -> (r: Option<StateCache>)
        ensures
            r is None <==> head <= self@.last_block_number,
            r matches Some(cache) ==> cache@ == cache_of(synced(self@, head, events@)),
            r matches Some(cache) ==> cache@.last_block_number > self@.last_block_number,
            r matches Some(cache) ==> (state_wf(self@) ==> book_wf(cache@.borrowers)),
    {
        if head <= self.last_block_number {
            return None;
        }
        let mut borrowers = self.borrowers.duplicate();
        borrowers.ingest(events);
        Some(StateCache { last_block_number: head, borrowers })
    }

    /// Makes a cache that has been persisted the state of the agent.
    pub fn adopt(&mut self, cache: StateCache)
        ensures
            final(self)@ == restored(old(self)@, Some(cache@)),
            state_wf(old(self)@) && book_wf(cache@.borrowers) ==> state_wf(final(self)@),
    {
        self.last_block_number = cache.last_block_number;
        self.borrowers = cache.borrowers;
    }

    /// A search for underwater borrowers among those that have borrowed
    /// anything.
    pub fn start_scan(&self) -> (r: UnderwaterScan)
        ensures
            r@ == (ScanModel {
                pending: debtor_accounts(self@.borrowers),
                cursor: 0,
                found: Seq::empty(),
            }),
    {
        UnderwaterScan::new(self.borrowers.debtors())
    }

    /// Chooses the pair of assets to evaluate for a candidate.
    pub fn select_pair(&self, borrower: &Address, prices: &PriceSnapshot) -> (r: Result<
        LiquidationPair,
        EvalError,
    >)
        ensures
            pair_outcome(r) == (if first_index(accounts(self@.borrowers), *borrower)
                < self@.borrowers.len() {
                pair_model(
                    self@.borrowers[first_index(accounts(self@.borrowers), *borrower)],
                    self@.tokens,
                    prices@,
                )
            } else {
                Err(EvalError::UnknownBorrower)
            }),
    {
        match self.borrowers.get(borrower) {
            Some(b) => select_pair(b, &self.tokens, prices),
            None => Err(EvalError::UnknownBorrower),
        }
    }

    /// Whose allowance to the pool to check before liquidating.
    pub fn allowance_owner(&self, sender: &Address) -> (r: Address)
        ensures
            r == allowance_owner_model(self@.use_aave_liquidator, *sender, self@.liquidator),
    {
        allowance_owner(self.use_aave_liquidator, sender, &self.liquidator)
    }

    /// The transaction that executes an opportunity.
    pub fn build_liquidation(&self, op: &LiquidationOpportunity) -> (r: Result<
        ExecutionPlan,
        ExecutionError,
    >)
        ensures
            r == plan_model(
                op@,
                op.debt_to_cover,
                self@.config,
                self@.liquidator,
                self@.use_aave_liquidator,
                self@.chain_id,
            ),
    {
        build_liquidation(
            op,
            &self.config,
            &self.liquidator,
            self.use_aave_liquidator,
            self.chain_id,
        )
    }

    /// Decides what the cycle does with the opportunities it evaluated.
    pub fn plan_tick(&self, ops: &Vec<LiquidationOpportunity>) -> (r: Option<TickPlan>)
        ensures
            r matches Some(plan) ==> {
                &&& is_best(profits_of(ops@), plan.index as int)
                &&& profits_of(ops@)[plan.index as int] > 0
                &&& plan.gas_bid_info.bid_percentage == self@.bid_percentage
                &&& plan.gas_bid_info.total_profit@ == profits_of(ops@)[plan.index as int]
            },
            r is None <==> forall|j: int| 0 <= j < ops@.len() ==> profits_of(ops@)[j] <= 0,
    {
        plan_tick(ops, self.bid_percentage)
    }
}

} // verus!
