use aave_v3_liquidator::address::Address;
use aave_v3_liquidator::deployment::{get_deployment_config, Deployment};
use aave_v3_liquidator::execution::{
    allowance_owner, build_liquidation, build_liquidation_call, ApprovalCall, ApprovalNonce,
    ExecutionError, ExecutionPlan, HelperCall, LiquidationCall, HELPER_POOL_FEE,
};
use aave_v3_liquidator::i256::I256;
use aave_v3_liquidator::opportunity::LiquidationOpportunity;
use aave_v3_liquidator::u256::U256;

fn addr(n: u8) -> Address {
    let mut bytes = [0u8; 20];
    bytes[19] = n;
    Address::from_bytes(bytes)
}

fn op() -> LiquidationOpportunity {
    LiquidationOpportunity {
        borrower: addr(50),
        collateral: addr(1),
        debt: addr(2),
        debt_to_cover: U256::from_u64(500),
        profit_eth: I256::from_u64(10),
        collateral_symbol: "COL".to_string(),
        debt_symbol: "DBT".to_string(),
        profit_factor: I256::from_u64(105),
    }
}

fn call() -> LiquidationCall {
    LiquidationCall {
        collateral: addr(1),
        debt: addr(2),
        user: addr(50),
        debt_to_cover: U256::from_u64(500),
        receive_a_token: false,
    }
}

#[test]
fn the_direct_mode_calls_the_pool() {
    let config = get_deployment_config(Deployment::AaveV3Ethereum);
    assert_eq!(
        build_liquidation(&op(), &config, &addr(7), true, 1),
        Ok(ExecutionPlan::Pool { pool: config.pool_address, call: call(), chain_id: 1 })
    );
}

#[test]
fn the_helper_mode_calls_the_liquidator_contract() {
    let config = get_deployment_config(Deployment::AaveV3Optimism);
    let helper = HelperCall {
        encoder: config.l2_encoder,
        liquidator: addr(7),
        call: call(),
        pool_fee: 500,
    };
    assert_eq!(HELPER_POOL_FEE, 500);
    assert_eq!(build_liquidation_call(&op(), &config, &addr(7)), Ok(helper));
    assert_eq!(
        build_liquidation(&op(), &config, &addr(7), false, 10),
        Ok(ExecutionPlan::Helper { helper, chain_id: 10 })
    );
}

#[test]
fn the_helper_mode_needs_the_encoder() {
    let config = get_deployment_config(Deployment::AaveV3Ethereum);
    assert_eq!(
        build_liquidation_call(&op(), &config, &addr(7)),
        Err(ExecutionError::EncoderNotDeployed)
    );
    assert_eq!(
        build_liquidation(&op(), &config, &addr(7), false, 1),
        Err(ExecutionError::EncoderNotDeployed)
    );
}

#[test]
fn the_allowance_is_that_of_whoever_pays() {
    assert_eq!(allowance_owner(true, &addr(3), &addr(7)), addr(3));
    assert_eq!(allowance_owner(false, &addr(3), &addr(7)), addr(7));
}

#[test]
fn an_approval_is_requested_only_for_a_zero_allowance() {
    let nonce = ApprovalNonce::new(U256::from_u64(12));
    assert_eq!(nonce.request(&addr(1), &U256::from_u64(1), true, &addr(8), &addr(7)), None);
    assert_eq!(nonce.request(&addr(1), &U256::max_value(), false, &addr(8), &addr(7)), None);
    assert_eq!(
        nonce.request(&addr(1), &U256::zero(), true, &addr(8), &addr(7)),
        Some(ApprovalCall::Token {
            token: addr(1),
            spender: addr(8),
            amount: U256::max_value(),
            nonce: U256::from_u64(12)
        })
    );
    assert_eq!(
        nonce.request(&addr(1), &U256::zero(), false, &addr(8), &addr(7)),
        Some(ApprovalCall::Liquidator {
            liquidator: addr(7),
            token: addr(1),
            nonce: U256::from_u64(12)
        })
    );
}

#[test]
fn each_submitted_approval_takes_the_next_nonce() {
    let mut nonce = ApprovalNonce::new(U256::from_u64(12));
    assert_eq!(nonce.current(), U256::from_u64(12));
    assert!(nonce.submitted());
    assert_eq!(nonce.current(), U256::from_u64(13));
    assert!(nonce.submitted());
    assert_eq!(
        nonce.request(&addr(2), &U256::zero(), false, &addr(8), &addr(7)),
        Some(ApprovalCall::Liquidator {
            liquidator: addr(7),
            token: addr(2),
            nonce: U256::from_u64(14)
        })
    );
    let mut last = ApprovalNonce::new(U256::max_value());
    assert!(!last.submitted());
    assert_eq!(last.current(), U256::max_value());
}
