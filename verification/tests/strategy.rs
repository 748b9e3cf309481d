use aave_v3_liquidator::address::Address;
use aave_v3_liquidator::borrowers::{BorrowerBook, EventKind, PositionEvent};
use aave_v3_liquidator::deployment::{get_deployment_config, Deployment};
use aave_v3_liquidator::evaluator::EvalError;
use aave_v3_liquidator::execution::{ExecutionError, ExecutionPlan};
use aave_v3_liquidator::i256::I256;
use aave_v3_liquidator::opportunity::LiquidationOpportunity;
use aave_v3_liquidator::prices::PriceSnapshot;
use aave_v3_liquidator::strategy::{AaveStrategy, Config, StateCache};
use aave_v3_liquidator::sync::BlockWindow;
use aave_v3_liquidator::tokens::{ReserveData, ReserveReading};
use aave_v3_liquidator::u256::U256;

const LIQUIDATOR: &str = "0x00000000000000000000000000000000000000aa";

fn addr(n: u8) -> Address {
    let mut bytes = [0u8; 20];
    bytes[19] = n;
    Address::from_bytes(bytes)
}

fn strategy(deployment: Deployment, direct: bool) -> AaveStrategy {
    AaveStrategy::new(Config { bid_percentage: 50, chain_id: 10 }, deployment, LIQUIDATOR, direct)
        .unwrap()
}

fn borrow(user: u8, reserve: u8) -> PositionEvent {
    PositionEvent { kind: EventKind::Borrow, on_behalf_of: addr(user), reserve: addr(reserve) }
}

fn supply(user: u8, reserve: u8) -> PositionEvent {
    PositionEvent { kind: EventKind::Supply, on_behalf_of: addr(user), reserve: addr(reserve) }
}

fn snapshot(book: &BorrowerBook) -> Vec<(Address, Vec<Address>, Vec<Address>)> {
    let mut out = Vec::new();
    for i in 0..book.len() {
        let b = book.at(i);
        out.push((b.address(), b.collateral().to_vec(), b.debt().to_vec()));
    }
    out
}

fn reading(n: u8, symbol: &str) -> ReserveReading {
    ReserveReading {
        address: addr(n),
        a_address: addr(n + 100),
        symbol: symbol.to_string(),
        data: Some(ReserveData {
            decimals: U256::from_u64(18),
            ltv: U256::from_u64(7500),
            liquidation_threshold: U256::from_u64(8000),
            liquidation_bonus: U256::from_u64(10500),
            reserve_factor: U256::from_u64(1000),
        }),
        protocol_fee: Some(U256::from_u64(1000)),
    }
}

#[test]
fn a_new_agent_knows_its_deployment_and_nothing_else() {
    let s = strategy(Deployment::AaveV3Optimism, false);
    assert_eq!(s.bid_percentage(), 50);
    assert_eq!(s.chain_id(), 10);
    assert_eq!(s.last_block_number(), 0);
    assert_eq!(s.borrowers().len(), 0);
    assert_eq!(s.tokens().len(), 0);
    assert_eq!(*s.config(), get_deployment_config(Deployment::AaveV3Optimism));
    assert_eq!(s.liquidator(), addr(0xaa));
    assert!(!s.use_aave_liquidator());
    assert!(strategy(Deployment::AAVE, true).use_aave_liquidator());
}

#[test]
fn an_agent_needs_a_liquidator_address() {
    let config = Config { bid_percentage: 50, chain_id: 10 };
    assert!(AaveStrategy::new(config, Deployment::AAVE, "", true).is_none());
    assert!(AaveStrategy::new(config, Deployment::AAVE, "0x1234", true).is_none());
    assert!(AaveStrategy::new(config, Deployment::AAVE, "liquidator", false).is_none());
}

#[test]
fn without_a_cache_the_checkpoint_is_the_creation_block() {
    let mut s = strategy(Deployment::AaveV3Optimism, false);
    s.load_cache(None);
    assert_eq!(s.last_block_number(), 4365693);
    assert_eq!(s.borrowers().len(), 0);
    let mut s = strategy(Deployment::AaveV3Ethereum, true);
    s.load_cache(None);
    assert_eq!(s.last_block_number(), 16291126);
}

#[test]
fn a_written_cache_restores_checkpoint_and_borrowers() {
    let mut s = strategy(Deployment::AaveV3Optimism, false);
    s.load_cache(None);
    let head = 4365693 + 5000;
    let cache = s
        .catch_up(head, &vec![borrow(1, 10), supply(1, 20), supply(2, 20), borrow(3, 11)])
        .unwrap();
    assert_eq!(cache.last_block_number, head);
    let written = snapshot(&cache.borrowers);
    // Nothing takes effect before the cache is adopted.
    assert_eq!(s.last_block_number(), 4365693);
    assert_eq!(s.borrowers().len(), 0);
    s.adopt(cache.duplicate());
    assert_eq!(s.last_block_number(), head);
    assert_eq!(snapshot(s.borrowers()), written);

    let mut reloaded = strategy(Deployment::AaveV3Optimism, false);
    reloaded.load_cache(Some(cache));
    assert_eq!(reloaded.last_block_number(), head);
    assert_eq!(snapshot(reloaded.borrowers()), snapshot(s.borrowers()));
    assert_eq!(
        snapshot(reloaded.borrowers()),
        vec![
            (addr(1), vec![addr(20)], vec![addr(10)]),
            (addr(2), vec![addr(20)], vec![]),
            (addr(3), vec![], vec![addr(11)]),
        ]
    );
}

#[test]
fn a_pass_moves_the_checkpoint_to_the_head() {
    let mut s = strategy(Deployment::AaveV3Optimism, false);
    s.load_cache(Some(StateCache { last_block_number: 100, borrowers: BorrowerBook::new() }));
    assert_eq!(
        s.sync_windows(1200),
        vec![
            BlockWindow { from_block: 100, to_block: 1123 },
            BlockWindow { from_block: 1124, to_block: 1200 }
        ]
    );
    let cache = s.catch_up(1200, &vec![borrow(1, 10)]).unwrap();
    s.adopt(cache);
    assert_eq!(s.last_block_number(), 1200);
    assert_eq!(s.borrowers().len(), 1);
}

#[test]
fn a_head_that_is_not_ahead_changes_nothing() {
    let mut s = strategy(Deployment::AaveV3Optimism, false);
    s.load_cache(Some(StateCache { last_block_number: 100, borrowers: BorrowerBook::new() }));
    assert_eq!(s.sync_windows(100), vec![]);
    assert_eq!(s.sync_windows(50), vec![]);
    assert!(s.catch_up(100, &vec![borrow(1, 10)]).is_none());
    assert!(s.catch_up(50, &vec![borrow(1, 10)]).is_none());
    assert_eq!(s.last_block_number(), 100);
    assert_eq!(s.borrowers().len(), 0);
}

#[test]
fn a_repeated_window_changes_no_borrower() {
    let window = vec![borrow(1, 10), supply(1, 20), supply(2, 20)];
    let mut s = strategy(Deployment::AaveV3Optimism, false);
    let cache = s.catch_up(1000, &window).unwrap();
    s.adopt(cache);
    let before = snapshot(s.borrowers());
    let cache = s.catch_up(2000, &window).unwrap();
    s.adopt(cache);
    assert_eq!(snapshot(s.borrowers()), before);
    assert_eq!(s.last_block_number(), 2000);
}

#[test]
fn the_scan_covers_the_borrowers_with_debt() {
    let mut s = strategy(Deployment::AaveV3Optimism, false);
    let cache =
        s.catch_up(1000, &vec![supply(1, 20), borrow(2, 10), borrow(3, 10), supply(4, 20)]).unwrap();
    s.adopt(cache);
    let scan = s.start_scan();
    assert_eq!(scan.total(), 2);
    assert_eq!(scan.next_chunk(), Some(vec![addr(2), addr(3)]));
}

#[test]
fn the_reserves_are_replaced_each_cycle() {
    let mut s = strategy(Deployment::AaveV3Optimism, false);
    s.update_token_configs(&vec![reading(1, "A"), reading(2, "B")]);
    assert_eq!(s.tokens().assets(), vec![addr(1), addr(2)]);
    s.update_token_configs(&vec![reading(3, "C")]);
    assert_eq!(s.tokens().assets(), vec![addr(3)]);
}

#[test]
fn a_candidate_that_the_book_does_not_know_is_passed_over() {
    let mut s = strategy(Deployment::AaveV3Optimism, false);
    s.update_token_configs(&vec![reading(10, "A"), reading(20, "B")]);
    let cache = s.catch_up(1000, &vec![supply(1, 20), borrow(1, 10)]).unwrap();
    s.adopt(cache);
    let prices = PriceSnapshot::from_batch(
        &vec![addr(10), addr(20)],
        &vec![U256::from_u64(50), U256::from_u64(100)],
    );
    assert_eq!(s.select_pair(&addr(9), &prices).err(), Some(EvalError::UnknownBorrower));
    let pair = s.select_pair(&addr(1), &prices).unwrap();
    assert_eq!(pair.borrower, addr(1));
    assert_eq!(pair.collateral, addr(20));
    assert_eq!(pair.debt, addr(10));
    assert_eq!(pair.a_token, addr(120));
}

fn op(profit: u64) -> LiquidationOpportunity {
    LiquidationOpportunity {
        borrower: addr(50),
        collateral: addr(1),
        debt: addr(2),
        debt_to_cover: U256::from_u64(500),
        profit_eth: I256::from_u64(profit),
        collateral_symbol: "COL".to_string(),
        debt_symbol: "DBT".to_string(),
        profit_factor: I256::zero(),
    }
}

#[test]
fn the_agent_builds_and_bids_with_its_own_settings() {
    let s = strategy(Deployment::AaveV3Optimism, false);
    match s.build_liquidation(&op(7)) {
        Ok(ExecutionPlan::Helper { helper, chain_id }) => {
            assert_eq!(chain_id, 10);
            assert_eq!(helper.liquidator, addr(0xaa));
            assert_eq!(helper.encoder, s.config().l2_encoder);
            assert_eq!(helper.call.user, addr(50));
        }
        other => panic!("unexpected plan {:?}", other),
    }
    let direct = strategy(Deployment::AaveV3Ethereum, true);
    match direct.build_liquidation(&op(7)) {
        Ok(ExecutionPlan::Pool { pool, call, chain_id }) => {
            assert_eq!(pool, direct.config().pool_address);
            assert_eq!(call.debt_to_cover, U256::from_u64(500));
            assert_eq!(chain_id, 10);
        }
        other => panic!("unexpected plan {:?}", other),
    }
    assert_eq!(
        strategy(Deployment::AaveV3Ethereum, false).build_liquidation(&op(7)),
        Err(ExecutionError::EncoderNotDeployed)
    );
    assert_eq!(s.allowance_owner(&addr(3)), addr(0xaa));
    assert_eq!(direct.allowance_owner(&addr(3)), addr(3));
    let plan = s.plan_tick(&vec![op(0), op(9), op(9)]).unwrap();
    assert_eq!(plan.index, 1);
    assert_eq!(plan.gas_bid_info.bid_percentage, 50);
    assert_eq!(plan.gas_bid_info.total_profit, U256::from_u64(9));
    assert_eq!(s.plan_tick(&vec![op(0)]), None);
}
