use aave_v3_liquidator::address::Address;
use aave_v3_liquidator::tokens::{ReserveData, ReserveReading, TokenConfig, TokenRegistry};
use aave_v3_liquidator::u256::U256;

fn addr(n: u8) -> Address {
    let mut bytes = [0u8; 20];
    bytes[19] = n;
    Address::from_bytes(bytes)
}

fn data(decimals: u64, bonus: u64) -> ReserveData {
    ReserveData {
        decimals: U256::from_u64(decimals),
        ltv: U256::from_u64(7500),
        liquidation_threshold: U256::from_u64(8000),
        liquidation_bonus: U256::from_u64(bonus),
        reserve_factor: U256::from_u64(1000),
    }
}

fn reading(n: u8, symbol: &str, data: Option<ReserveData>, fee: Option<u64>) -> ReserveReading {
    ReserveReading {
        address: addr(n),
        a_address: addr(n + 100),
        symbol: symbol.to_string(),
        data,
        protocol_fee: fee.map(U256::from_u64),
    }
}

#[test]
fn a_complete_reading_becomes_a_reserve() {
    let token = TokenConfig::from_reading(&reading(1, "WETH", Some(data(18, 10500)), Some(1000)))
        .unwrap();
    assert_eq!(token.address, addr(1));
    assert_eq!(token.a_address, addr(101));
    assert_eq!(token.decimals, 18);
    assert_eq!(token.ltv, 7500);
    assert_eq!(token.liquidation_threshold, 8000);
    assert_eq!(token.liquidation_bonus, 10500);
    assert_eq!(token.reserve_factor, 1000);
    assert_eq!(token.protocol_fee, 1000);
    assert_eq!(token.symbol, "WETH");
}

#[test]
fn a_parameter_is_the_low_word_of_what_was_reported() {
    let mut wide = data(18, 10500);
    wide.decimals = U256::from_limbs([6, 1, 2, 3]);
    wide.liquidation_bonus =
        U256::from_limbs(ethers::types::U256::from(u128::MAX).0);
    let token = TokenConfig::from_reading(&reading(1, "USDC", Some(wide), Some(0))).unwrap();
    assert_eq!(token.decimals, 6);
    assert_eq!(token.liquidation_bonus, u64::MAX);
    assert_eq!(token.decimals, ethers::types::U256([6, 1, 2, 3]).low_u64());
}

#[test]
fn an_incomplete_reading_is_no_reserve() {
    assert!(TokenConfig::from_reading(&reading(1, "A", None, Some(1))).is_none());
    assert!(TokenConfig::from_reading(&reading(1, "A", Some(data(18, 1)), None)).is_none());
    assert!(TokenConfig::from_reading(&reading(1, "A", None, None)).is_none());
}

#[test]
fn refresh_replaces_the_registry_and_leaves_failures_out() {
    let mut registry = TokenRegistry::new();
    registry.refresh(&vec![
        reading(1, "WETH", Some(data(18, 10500)), Some(1000)),
        reading(2, "USDC", Some(data(6, 10450)), Some(1000)),
    ]);
    assert_eq!(registry.assets(), vec![addr(1), addr(2)]);
    assert_eq!(registry.get(&addr(2)).unwrap().decimals, 6);

    registry.refresh(&vec![
        reading(3, "DAI", Some(data(18, 10400)), Some(1000)),
        reading(1, "WETH", None, Some(1000)),
        reading(2, "USDC", Some(data(6, 10450)), None),
        reading(4, "WBTC", Some(data(8, 10700)), Some(1000)),
    ]);
    assert_eq!(registry.len(), 2);
    assert_eq!(registry.assets(), vec![addr(3), addr(4)]);
    assert!(registry.get(&addr(1)).is_none());
    assert!(registry.get(&addr(2)).is_none());
    assert_eq!(registry.get(&addr(4)).unwrap().symbol, "WBTC");
    assert_eq!(registry.at(0).symbol, "DAI");
}

#[test]
fn a_later_entry_for_an_asset_replaces_the_earlier_one() {
    let mut registry = TokenRegistry::new();
    registry.refresh(&vec![
        reading(1, "OLD", Some(data(18, 10500)), Some(1000)),
        reading(2, "USDC", Some(data(6, 10450)), Some(1000)),
        reading(1, "NEW", Some(data(9, 10100)), Some(1000)),
    ]);
    assert_eq!(registry.assets(), vec![addr(1), addr(2)]);
    assert_eq!(registry.get(&addr(1)).unwrap().symbol, "NEW");
    assert_eq!(registry.get(&addr(1)).unwrap().decimals, 9);
    registry.insert(
        TokenConfig::from_reading(&reading(2, "USDT", Some(data(6, 10450)), Some(1))).unwrap(),
    );
    assert_eq!(registry.len(), 2);
    assert_eq!(registry.get(&addr(2)).unwrap().symbol, "USDT");
}
