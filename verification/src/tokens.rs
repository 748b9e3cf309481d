//! The reserves of the pool and their parameters, rebuilt in full at the
//! start of every cycle.

use crate::address::Address;
use crate::asset_set::{first_index, lemma_first_index, lemma_first_index_is};
use crate::u256::{limb_radix, U256};
use vstd::prelude::*;

verus! {

/// The parameters of one reserve.
#[derive(Debug)]
pub struct TokenConfig {
    /// The underlying asset.
    pub address: Address,
    /// The interest-bearing token that stands for a supply of the asset.
    pub a_address: Address,
    pub decimals: u64,
    pub ltv: u64,
    pub liquidation_threshold: u64,
    /// In basis points; `10500` awards the liquidator 5% on top.
    pub liquidation_bonus: u64,
    pub reserve_factor: u64,
    pub protocol_fee: u64,
    pub symbol: String,
}

/// A reserve as the contracts see it.
pub struct TokenModel {
    pub address: Address,
    pub a_address: Address,
    pub decimals: u64,
    pub ltv: u64,
    pub liquidation_threshold: u64,
    pub liquidation_bonus: u64,
    pub reserve_factor: u64,
    pub protocol_fee: u64,
    pub symbol: Seq<char>,
}

impl View for TokenConfig {
    type V = TokenModel;

    open spec fn view(&self) -> TokenModel {
        TokenModel {
            address: self.address,
            a_address: self.a_address,
            decimals: self.decimals,
            ltv: self.ltv,
            liquidation_threshold: self.liquidation_threshold,
            liquidation_bonus: self.liquidation_bonus,
            reserve_factor: self.reserve_factor,
            protocol_fee: self.protocol_fee,
            symbol: self.symbol@,
        }
    }
}

/// The configuration words of a reserve as the data provider reports them.
#[derive(Clone, Copy, Debug, PartialEq, Eq)]
pub struct ReserveData {
    pub decimals: U256,
    pub ltv: U256,
    pub liquidation_threshold: U256,
    pub liquidation_bonus: U256,
    pub reserve_factor: U256,
}

/// What introspection returned for one reserve. A part that could not be
/// fetched is `None`.
#[derive(Debug)]
pub struct ReserveReading {
    pub address: Address,
    pub a_address: Address,
    pub symbol: String,
    pub data: Option<ReserveData>,
    pub protocol_fee: Option<U256>,
}

/// The low 64 bits of a configuration word.
pub open spec fn low_word(value: U256) -> u64 {
    (value@ % limb_radix()) as u64
}

/// The reserve that a reading describes, where both of its parts were
/// fetched.
pub open spec fn reading_token(reading: ReserveReading) -> Option<TokenModel> {
    match (reading.data, reading.protocol_fee) {
        (Some(data), Some(fee)) => Some(
            TokenModel {
                address: reading.address,
                a_address: reading.a_address,
                decimals: low_word(data.decimals),
                ltv: low_word(data.ltv),
                liquidation_threshold: low_word(data.liquidation_threshold),
                liquidation_bonus: low_word(data.liquidation_bonus),
                reserve_factor: low_word(data.reserve_factor),
                protocol_fee: low_word(fee),
                symbol: reading.symbol@,
            },
        ),
        _ => None,
    }
}

/// The assets of a registry, in its order.
pub open spec fn token_addresses(tokens: Seq<TokenModel>) -> Seq<Address> {
    tokens.map_values(|t: TokenModel| t.address)
}

/// What holds of every registry: no asset has two entries.
pub open spec fn registry_wf(tokens: Seq<TokenModel>) -> bool {
    token_addresses(tokens).no_duplicates()
}

/// The reserve of an asset, if the registry has it.
pub open spec fn token_of(tokens: Seq<TokenModel>, asset: Address) -> Option<TokenModel> {
    let at = first_index(token_addresses(tokens), asset);
    if at < tokens.len() {
        Some(tokens[at])
    } else {
        None
    }
}

/// The registry after a reserve is entered: it takes the place of an entry
/// for the same asset, or joins at the end.
pub open spec fn with_token(tokens: Seq<TokenModel>, token: TokenModel) -> Seq<TokenModel> {
    let at = first_index(token_addresses(tokens), token.address);
    if at < tokens.len() {
        tokens.update(at, token)
    } else {
        tokens.push(token)
    }
}

/// The registry that a round of introspection yields: the reserves whose
/// readings are complete, in the order of the readings.
pub open spec fn registry_of(readings: Seq<ReserveReading>) -> Seq<TokenModel>
    decreases readings.len(),
{
    if readings.len() == 0 {
        Seq::empty()
    } else {
        let rest = registry_of(readings.drop_last());
        match reading_token(readings.last()) {
            Some(token) => with_token(rest, token),
            None => rest,
        }
    }
}

impl TokenConfig {
    /// The reserve that a complete reading describes. Each parameter is the
    /// low 64 bits of the word reported for it.
    pub fn from_reading(reading: &ReserveReading) -> (r: Option<TokenConfig>)
        ensures
            r is Some <==> reading_token(*reading) is Some,
            r matches Some(t) ==> Some(t@) == reading_token(*reading),
    {
        match (&reading.data, &reading.protocol_fee) {
            (Some(data), Some(fee)) => Some(
                TokenConfig {
                    address: reading.address,
                    a_address: reading.a_address,
                    decimals: data.decimals.low_u64(),
                    ltv: data.ltv.low_u64(),
                    liquidation_threshold: data.liquidation_threshold.low_u64(),
                    liquidation_bonus: data.liquidation_bonus.low_u64(),
                    reserve_factor: data.reserve_factor.low_u64(),
                    protocol_fee: fee.low_u64(),
                    symbol: reading.symbol.clone(),
                },
            ),
            _ => None,
        }
    }
}

/// The known reserves, keyed by asset.
#[derive(Debug)]
pub struct TokenRegistry {
    entries: Vec<TokenConfig>,
}

impl TokenRegistry {
    pub closed spec fn view(&self) -> Seq<TokenModel> {
        self.entries@.map_values(|t: TokenConfig| t@)
    }

    /// No asset has two entries.
    pub open spec fn wf(&self) -> bool {
        registry_wf(self@)
    }

    /// The empty registry.
    pub fn new() -> (r: TokenRegistry)
        ensures
            r@ == Seq::<TokenModel>::empty(),
            r.wf(),
    {
        TokenRegistry { entries: Vec::new() }
    }

    /// The number of reserves.
    pub fn len(&self) -> (r: usize)
        ensures
            r == self@.len(),
    {
        self.entries.len()
    }

    /// The reserve at a position of the registry.
    pub fn at(&self, i: usize) -> (r: &TokenConfig)
        requires
            i < self@.len(),
        ensures
            r@ == self@[i as int],
    {
        &self.entries[i]
    }

    fn position(&self, asset: &Address) -> (r: Option<usize>)
        ensures
            r matches Some(i) ==> i < self@.len() && i == first_index(
                token_addresses(self@),
                *asset,
            ),
            r is None ==> first_index(token_addresses(self@), *asset) == self@.len(),
    {
        let mut i: usize = 0;
        while i < self.entries.len()
            invariant
                i <= self.entries@.len(),
                forall|j: int| 0 <= j < i ==> token_addresses(self@)[j] != *asset,
            decreases self.entries@.len() - i,
        {
            if self.entries[i].address.same(asset) {
                proof {
                    lemma_first_index_is(token_addresses(self@), *asset, i as int);
                }
                return Some(i);
            }
            i = i + 1;
        }
        proof {
            lemma_first_index_is(token_addresses(self@), *asset, i as int);
        }
        None
    }

    /// The reserve of an asset.
    pub fn get(&self, asset: &Address) -> (r: Option<&TokenConfig>)
        ensures
            r is Some <==> token_of(self@, *asset) is Some,
            r matches Some(t) ==> Some(t@) == token_of(self@, *asset),
    {
        match self.position(asset) {
            Some(i) => Some(&self.entries[i]),
            None => None,
        }
    }

    /// Enters a reserve, in place of an earlier entry for the same asset.
    pub fn insert(&mut self, token: TokenConfig)
        ensures
            final(self)@ == with_token(old(self)@, token@),
            old(self).wf() ==> final(self).wf(),
    {
        let ghost before = self@;
        match self.position(&token.address) {
            Some(i) => {
                self.entries[i] = token;
                proof {
                    assert(self@ =~= before.update(i as int, token@));
                    lemma_first_index(token_addresses(before), token@.address);
                    assert(token_addresses(self@) =~= token_addresses(before));
                }
            },
            None => {
                self.entries.push(token);
                proof {
                    assert(self@ =~= before.push(token@));
                    lemma_first_index(token_addresses(before), token@.address);
                    assert(token_addresses(self@) =~= token_addresses(before).push(
                        token@.address,
                    ));
                }
            },
        }
    }

    /// Replaces the whole registry by what a round of introspection
    /// returned. A reserve with an incomplete reading is left out.
    pub fn refresh(&mut self, readings: &Vec<ReserveReading>)
        ensures
            final(self)@ == registry_of(readings@),
            final(self).wf(),
    {
        let mut fresh = TokenRegistry::new();
        let mut i: usize = 0;
        while i < readings.len()
            invariant
                i <= readings@.len(),
                fresh@ == registry_of(readings@.take(i as int)),
                fresh.wf(),
            decreases readings@.len() - i,
        {
            proof {
                let t = readings@.take(i + 1);
                assert(t.drop_last() == readings@.take(i as int));
                assert(t.last() == readings@[i as int]);
            }
            match TokenConfig::from_reading(&readings[i]) {
                Some(token) => {
                    fresh.insert(token);
                },
                None => {},
            }
            i = i + 1;
        }
        assert(readings@.take(readings@.len() as int) == readings@);
        *self = fresh;
    }

    /// The assets of the registry, in its order.
    pub fn assets(&self) -> (r: Vec<Address>)
        ensures
            r@ == token_addresses(self@),
    {
        let mut out: Vec<Address> = Vec::new();
        let mut i: usize = 0;
        while i < self.entries.len()
            invariant
                i <= self.entries@.len(),
                out@ == token_addresses(self@).take(i as int),
            decreases self.entries@.len() - i,
        {
            out.push(self.entries[i].address);
            assert(token_addresses(self@).take(i + 1) == token_addresses(self@).take(
                i as int,
            ).push(token_addresses(self@)[i as int]));
            i = i + 1;
        }
        assert(token_addresses(self@).take(self@.len() as int) == token_addresses(self@));
        out
    }
}

} // verus!
