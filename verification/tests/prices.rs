use aave_v3_liquidator::address::Address;
use aave_v3_liquidator::prices::{PriceError, PriceSnapshot, PRICE_ONE};
use aave_v3_liquidator::u256::U256;
use aave_v3_liquidator::wad_ray_math::MathError;

fn addr(n: u8) -> Address {
    let mut bytes = [0u8; 20];
    bytes[19] = n;
    Address::from_bytes(bytes)
}

const WETH: u8 = 1;

fn snapshot(quotes: &[(u8, u64)]) -> PriceSnapshot {
    let assets: Vec<Address> = quotes.iter().map(|q| addr(q.0)).collect();
    let prices: Vec<U256> = quotes.iter().map(|q| U256::from_u64(q.1)).collect();
    PriceSnapshot::from_batch(&assets, &prices)
}

#[test]
fn a_batch_pairs_assets_with_prices() {
    let snap = snapshot(&[(1, 200_000_000_000), (2, 100_000_000), (3, 5)]);
    assert_eq!(snap.len(), 3);
    assert_eq!(snap.get(&addr(2)), Some(U256::from_u64(100_000_000)));
    assert_eq!(snap.get(&addr(3)), Some(U256::from_u64(5)));
    assert_eq!(snap.get(&addr(4)), None);
}

#[test]
fn a_batch_reaches_as_far_as_both_lists() {
    let assets = vec![addr(1), addr(2), addr(3)];
    let snap = PriceSnapshot::from_batch(&assets, &vec![U256::from_u64(7)]);
    assert_eq!(snap.len(), 1);
    assert_eq!(snap.get(&addr(1)), Some(U256::from_u64(7)));
    assert_eq!(snap.get(&addr(2)), None);
    let snap = PriceSnapshot::from_batch(
        &vec![addr(1)],
        &vec![U256::from_u64(7), U256::from_u64(8)],
    );
    assert_eq!(snap.len(), 1);
    assert_eq!(PriceSnapshot::from_batch(&vec![], &vec![]).len(), 0);
}

#[test]
fn a_later_price_replaces_the_earlier_one() {
    let mut snap = snapshot(&[(1, 10), (2, 20), (1, 30)]);
    assert_eq!(snap.len(), 2);
    assert_eq!(snap.get(&addr(1)), Some(U256::from_u64(30)));
    snap.insert(addr(2), U256::from_u64(40));
    snap.insert(addr(3), U256::from_u64(50));
    assert_eq!(snap.len(), 3);
    assert_eq!(snap.get(&addr(2)), Some(U256::from_u64(40)));
}

#[test]
fn the_wrapped_native_asset_is_priced_at_one() {
    let snap = PriceSnapshot::new();
    assert_eq!(snap.get_asset_price_eth(&addr(WETH), &addr(WETH)), Ok(U256::from_u64(PRICE_ONE)));
    assert_eq!(PRICE_ONE, 100_000_000);
}

#[test]
fn a_price_is_converted_through_the_native_quote() {
    // ETH at 2000 USD, the asset at 1 USD: 0.0005 ETH = 50_000 with eight decimals.
    let snap = snapshot(&[(WETH, 200_000_000_000), (2, 100_000_000), (3, 300_000_000_001)]);
    assert_eq!(snap.get_asset_price_eth(&addr(2), &addr(WETH)), Ok(U256::from_u64(50_000)));
    // Rounded down: 300_000_000_001 * 10^8 / 200_000_000_000 = 150_000_000.0005
    assert_eq!(snap.get_asset_price_eth(&addr(3), &addr(WETH)), Ok(U256::from_u64(150_000_000)));
}

#[test]
fn a_missing_price_is_reported() {
    let snap = snapshot(&[(2, 100_000_000)]);
    assert_eq!(
        snap.get_asset_price_eth(&addr(3), &addr(WETH)),
        Err(PriceError::MissingAssetPrice)
    );
    assert_eq!(
        snap.get_asset_price_eth(&addr(2), &addr(WETH)),
        Err(PriceError::MissingNativePrice)
    );
}

#[test]
fn arithmetic_failures_of_the_conversion_are_reported() {
    let snap = snapshot(&[(WETH, 0), (2, 100_000_000)]);
    assert_eq!(
        snap.get_asset_price_eth(&addr(2), &addr(WETH)),
        Err(PriceError::Arithmetic(MathError::DivideByZero))
    );
    let mut snap = snapshot(&[(WETH, 200_000_000_000)]);
    snap.insert(addr(2), U256::max_value());
    assert_eq!(
        snap.get_asset_price_eth(&addr(2), &addr(WETH)),
        Err(PriceError::Arithmetic(MathError::Overflow))
    );
}
