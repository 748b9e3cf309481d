//! The oracle's prices for one cycle, and their conversion to the native
//! currency.
//!
//! Prices are quoted with eight decimals. The wrapped native asset is its
//! own numeraire: its native price is exactly one.

use crate::address::Address;
use crate::asset_set::{first_index, lemma_first_index, lemma_first_index_is};
use crate::checked::{try_div, try_mul};
use crate::u256::{u256_max, U256};
use crate::wad_ray_math::MathError;
use vstd::prelude::*;

verus! {

/// A price of exactly one, with eight decimals.
pub const PRICE_ONE: u64 = 100_000_000;

/// Why a price could not be given.
#[derive(Clone, Copy, Debug, PartialEq, Eq, Structural)]
pub enum PriceError {
    /// The snapshot has no price for the asset.
    MissingAssetPrice,
    /// The snapshot has no price for the wrapped native asset.
    MissingNativePrice,
    /// The conversion overflowed, or the native asset is quoted at zero.
    Arithmetic(MathError),
}

/// The oracle's price of one asset, in the quote currency.
#[derive(Clone, Copy, Debug, PartialEq, Eq)]
pub struct Quote {
    pub asset: Address,
    pub price: U256,
}

/// The assets of a snapshot, in its order.
pub open spec fn quoted_assets(quotes: Seq<Quote>) -> Seq<Address> {
    quotes.map_values(|q: Quote| q.asset)
}

/// The price of an asset, if the snapshot has one.
pub open spec fn quoted(quotes: Seq<Quote>, asset: Address) -> Option<nat> {
    let at = first_index(quoted_assets(quotes), asset);
    if at < quotes.len() {
        Some(quotes[at].price@)
    } else {
        None
    }
}

/// The snapshot after a quote is entered: it takes the place of an earlier
/// quote for the same asset, or joins at the end.
pub open spec fn with_quote(quotes: Seq<Quote>, quote: Quote) -> Seq<Quote> {
    let at = first_index(quoted_assets(quotes), quote.asset);
    if at < quotes.len() {
        quotes.update(at, quote)
    } else {
        quotes.push(quote)
    }
}

/// The snapshot made of the first `n` assets, each with the price at its
/// position.
pub open spec fn paired(assets: Seq<Address>, prices: Seq<U256>, n: nat) -> Seq<Quote>
    decreases n,
{
    if n == 0 {
        Seq::empty()
    } else {
        with_quote(
            paired(assets, prices, (n - 1) as nat),
            Quote { asset: assets[n - 1], price: prices[n - 1] },
        )
    }
}

/// The snapshot that a batch of prices yields: the assets paired with the
/// prices position by position, as far as both reach.
pub open spec fn snapshot_of(assets: Seq<Address>, prices: Seq<U256>) -> Seq<Quote> {
    paired(
        assets,
        prices,
        if assets.len() <= prices.len() {
            assets.len()
        } else {
            prices.len()
        },
    )
}

/// The price of an asset in the native currency, with eight decimals:
/// one for the wrapped native asset itself, and otherwise the asset's quote
/// times one, divided by the quote of the wrapped native asset.
pub open spec fn native_price(quotes: Seq<Quote>, wrapped_native: Address, asset: Address)
    -> Result<nat, PriceError> {
    if asset == wrapped_native {
        Ok(PRICE_ONE as nat)
    } else {
        match quoted(quotes, asset) {
            None => Err(PriceError::MissingAssetPrice),
            Some(price) => match quoted(quotes, wrapped_native) {
                None => Err(PriceError::MissingNativePrice),
                Some(native) => if price * PRICE_ONE > u256_max() {
                    Err(PriceError::Arithmetic(MathError::Overflow))
                } else if native == 0 {
                    Err(PriceError::Arithmetic(MathError::DivideByZero))
                } else {
                    Ok((price * (PRICE_ONE as nat)) / native)
                },
            },
        }
    }
}

/// The prices of one cycle.
#[derive(Debug)]
pub struct PriceSnapshot {
    quotes: Vec<Quote>,
}

impl PriceSnapshot {
    pub closed spec fn view(&self) -> Seq<Quote> {
        self.quotes@
    }

    /// No asset has two quotes.
    pub open spec fn wf(&self) -> bool {
        quoted_assets(self@).no_duplicates()
    }

    /// The snapshot without prices.
    pub fn new() -> (r: PriceSnapshot)
        ensures
            r@ == Seq::<Quote>::empty(),
            r.wf(),
    {
        PriceSnapshot { quotes: Vec::new() }
    }

    /// The number of quotes.
    pub fn len(&self) -> (r: usize)
        ensures
            r == self@.len(),
    {
        self.quotes.len()
    }

    fn position(&self, asset: &Address) -> (r: Option<usize>)
        ensures
            r matches Some(i) ==> i < self@.len() && i == first_index(
                quoted_assets(self@),
                *asset,
            ),
            r is None ==> first_index(quoted_assets(self@), *asset) == self@.len(),
    {
        let mut i: usize = 0;
        while i < self.quotes.len()
            invariant
                i <= self.quotes@.len(),
                forall|j: int| 0 <= j < i ==> quoted_assets(self@)[j] != *asset,
            decreases self.quotes@.len() - i,
        {
            if self.quotes[i].asset.same(asset) {
                proof {
                    lemma_first_index_is(quoted_assets(self@), *asset, i as int);
                }
                return Some(i);
            }
            i = i + 1;
        }
        proof {
            lemma_first_index_is(quoted_assets(self@), *asset, i as int);
        }
        None
    }

    /// The price of an asset in the quote currency.
    pub fn get(&self, asset: &Address) -> (r: Option<U256>)
        ensures
            r is Some <==> quoted(self@, *asset) is Some,
            r matches Some(p) ==> Some(p@) == quoted(self@, *asset),
    {
        match self.position(asset) {
            Some(i) => Some(self.quotes[i].price),
            None => None,
        }
    }

    /// Enters a price, in place of an earlier one for the same asset.
    pub fn insert(&mut self, asset: Address, price: U256)
        ensures
            final(self)@ == with_quote(old(self)@, Quote { asset, price }),
            old(self).wf() ==> final(self).wf(),
    {
        let ghost before = self@;
        let quote = Quote { asset, price };
        match self.position(&asset) {
            Some(i) => {
                self.quotes[i] = quote;
                proof {
                    lemma_first_index(quoted_assets(before), asset);
                    assert(quoted_assets(self@) =~= quoted_assets(before));
                }
            },
            None => {
                self.quotes.push(quote);
                proof {
                    lemma_first_index(quoted_assets(before), asset);
                    assert(quoted_assets(self@) =~= quoted_assets(before).push(asset));
                }
            },
        }
    }

    /// The snapshot of a batch of prices: `prices[i]` is the price of
    /// `assets[i]`. What one list has beyond the other's end is ignored.
    pub fn from_batch(assets: &Vec<Address>, prices: &Vec<U256>) -> (r: PriceSnapshot)
        ensures
            r@ == snapshot_of(assets@, prices@),
            r.wf(),
    {
        let n = if assets.len() <= prices.len() {
            assets.len()
        } else {
            prices.len()
        };
        let mut out = PriceSnapshot::new();
        let mut i: usize = 0;
        while i < n
            invariant
                i <= n,
                n <= assets@.len(),
                n <= prices@.len(),
                out@ == paired(assets@, prices@, i as nat),
                out.wf(),
            decreases n - i,
        {
            out.insert(assets[i], prices[i]);
            i = i + 1;
        }
        out
    }

    /// The price of an asset in the native currency.
    pub fn get_asset_price_eth(&self, asset: &Address, wrapped_native: &Address) -> (r: Result<
        U256,
        PriceError,
    >)
        ensures
            price_outcome(r) == native_price(self@, *wrapped_native, *asset),
    {
        if asset.same(wrapped_native) {
            return Ok(U256::from_u64(PRICE_ONE));
        }
        let price = match self.get(asset) {
            Some(p) => p,
            None => {
                return Err(PriceError::MissingAssetPrice);
            },
        };
        let native = match self.get(wrapped_native) {
            Some(p) => p,
            None => {
                return Err(PriceError::MissingNativePrice);
            },
        };
        let scaled = match try_mul(&price, &U256::from_u64(PRICE_ONE)) {
            Ok(v) => v,
            Err(e) => {
                return Err(PriceError::Arithmetic(e));
            },
        };
        match try_div(&scaled, &native) {
            Ok(v) => Ok(v),
            Err(e) => Err(PriceError::Arithmetic(e)),
        }
    }
}

/// The number a price outcome stands for.
pub open spec fn price_outcome(r: Result<U256, PriceError>) -> Result<nat, PriceError> {
    match r {
        Ok(v) => Ok(v@),
        Err(e) => Err(e),
    }
}

} // verus!
