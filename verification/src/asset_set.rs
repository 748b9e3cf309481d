//! Sets of asset addresses that remember the order in which assets arrived.
//!
//! A borrower's collateral and debt are sets: an asset counts once however
//! often it is reported. The order of arrival is kept because the evaluator
//! picks the first asset of each set.
//!
//! The sets, and the tables keyed by address elsewhere in the crate, are
//! vectors searched from the front. An address is twenty bytes and no
//! machine integer, and the verifier knows what a hash map holds only for
//! integer keys; a vector also fixes the order in which entries are met,
//! which a hash map leaves open.

use crate::address::Address;
use vstd::prelude::*;

verus! {

/// The position of the first occurrence of `key`, or the length of `keys`
/// where it does not occur.
pub open spec fn first_index(keys: Seq<Address>, key: Address) -> int
    decreases keys.len(),
{
    if keys.len() == 0 {
        0
    } else if keys[0] == key {
        0
    } else {
        1 + first_index(keys.drop_first(), key)
    }
}

/// `first_index` is the one position before which `key` does not occur and
/// at which, unless it is the length, `key` stands.
pub proof fn lemma_first_index(keys: Seq<Address>, key: Address)
    ensures
        0 <= first_index(keys, key) <= keys.len(),
        first_index(keys, key) < keys.len() ==> keys[first_index(keys, key)] == key,
        forall|j: int| 0 <= j < first_index(keys, key) ==> keys[j] != key,
        first_index(keys, key) < keys.len() <==> keys.contains(key),
    decreases keys.len(),
{
    if keys.len() > 0 && keys[0] != key {
        let rest = keys.drop_first();
        lemma_first_index(rest, key);
        let r = first_index(rest, key);
        assert forall|j: int| 0 <= j < r + 1 implies keys[j] != key by {
            if j > 0 {
                assert(keys[j] == rest[j - 1]);
            }
        }
        if r < rest.len() {
            assert(keys[r + 1] == rest[r]);
        }
        if keys.contains(key) {
            let w = choose|w: int| 0 <= w < keys.len() && keys[w] == key;
            assert(rest[w - 1] == key);
        }
    }
}

/// A position that has the two properties of `first_index` is `first_index`.
pub proof fn lemma_first_index_is(keys: Seq<Address>, key: Address, at: int)
    requires
        0 <= at <= keys.len(),
        at < keys.len() ==> keys[at] == key,
        forall|j: int| 0 <= j < at ==> keys[j] != key,
    ensures
        first_index(keys, key) == at,
{
    lemma_first_index(keys, key);
    let f = first_index(keys, key);
    if f < at {
        assert(keys[f] != key);
    }
}

/// The set after `asset` has been reported: unchanged where it is already a
/// member, and otherwise with `asset` at the end.
pub open spec fn with_asset(set: Seq<Address>, asset: Address) -> Seq<Address> {
    if set.contains(asset) {
        set
    } else {
        set.push(asset)
    }
}

/// A set of addresses in order of arrival.
#[derive(Debug)]
pub struct AddressSet {
    items: Vec<Address>,
}

impl AddressSet {
    /// The members, first arrival first.
    pub closed spec fn view(&self) -> Seq<Address> {
        self.items@
    }

    /// No member occurs twice. Every set that this module hands out is well
    /// formed, and its operations keep it so.
    pub open spec fn wf(&self) -> bool {
        self@.no_duplicates()
    }

    /// The empty set.
    pub fn new() -> (r: AddressSet)
        ensures
            r@ == Seq::<Address>::empty(),
            r.wf(),
    {
        AddressSet { items: Vec::new() }
    }

    /// The number of members.
    pub fn len(&self) -> (r: usize)
        ensures
            r == self@.len(),
    {
        self.items.len()
    }

    pub fn is_empty(&self) -> (r: bool)
        ensures
            r == (self@.len() == 0),
    {
        self.items.len() == 0
    }

    /// The member at a position.
    pub fn get(&self, i: usize) -> (r: Address)
        requires
            i < self@.len(),
        ensures
            r == self@[i as int],
    {
        self.items[i]
    }

    /// The member that arrived first, if the set has one.
    pub fn first(&self) -> (r: Option<Address>)
        ensures
            r == (if self@.len() > 0 {
                Some(self@[0])
            } else {
                None
            }),
    {
        if self.items.len() > 0 {
            Some(self.items[0])
        } else {
            None
        }
    }

    pub fn contains(&self, asset: &Address) -> (r: bool)
        ensures
            r == self@.contains(*asset),
    {
        let mut i: usize = 0;
        while i < self.items.len()
            invariant
                i <= self.items@.len(),
                forall|j: int| 0 <= j < i ==> self.items@[j] != *asset,
            decreases self.items@.len() - i,
        {
            if self.items[i].same(asset) {
                return true;
            }
            i = i + 1;
        }
        false
    }

    /// Reports an asset; says whether it was new.
    pub fn insert(&mut self, asset: Address) -> (added: bool)
        ensures
            final(self)@ == with_asset(old(self)@, asset),
            added == !old(self)@.contains(asset),
            old(self).wf() ==> final(self).wf(),
    {
        if self.contains(&asset) {
            false
        } else {
            self.items.push(asset);
            true
        }
    }

    /// The members as a vector, first arrival first.
    pub fn to_vec(&self) -> (r: Vec<Address>)
        ensures
            r@ == self@,
    {
        let mut out: Vec<Address> = Vec::new();
        let mut i: usize = 0;
        while i < self.items.len()
            invariant
                i <= self.items@.len(),
                out@ == self.items@.take(i as int),
            decreases self.items@.len() - i,
        {
            out.push(self.items[i]);
            assert(self.items@.take(i + 1) == self.items@.take(i as int).push(self.items@[i as int]));
            i = i + 1;
        }
        assert(self.items@.take(self.items@.len() as int) == self.items@);
        out
    }

    /// A copy of the set.
    pub fn duplicate(&self) -> (r: AddressSet)
        ensures
            r@ == self@,
    {
        AddressSet { items: self.to_vec() }
    }
}

/// The set that reporting the assets of `assets` one after another builds.
pub open spec fn set_of(assets: Seq<Address>) -> Seq<Address>
    decreases assets.len(),
{
    if assets.len() == 0 {
        Seq::empty()
    } else {
        with_asset(set_of(assets.drop_last()), assets.last())
    }
}

impl AddressSet {
    /// The set of the given assets: each once, in the order of its first
    /// occurrence.
    pub fn from_vec(assets: &Vec<Address>) -> (r: AddressSet)
        ensures
            r@ == set_of(assets@),
            r.wf(),
    {
        let mut out = AddressSet::new();
        let mut i: usize = 0;
        while i < assets.len()
            invariant
                i <= assets@.len(),
                out@ == set_of(assets@.take(i as int)),
                out.wf(),
            decreases assets@.len() - i,
        {
            out.insert(assets[i]);
            proof {
                let t = assets@.take(i + 1);
                assert(t.drop_last() == assets@.take(i as int));
                assert(t.last() == assets@[i as int]);
            }
            i = i + 1;
        }
        assert(assets@.take(assets@.len() as int) == assets@);
        out
    }
}

/// Reporting an asset twice is reporting it once.
pub proof fn lemma_with_asset_idempotent(set: Seq<Address>, asset: Address)
    ensures
        with_asset(with_asset(set, asset), asset) == with_asset(set, asset),
        with_asset(set, asset).contains(asset),
{
    if !set.contains(asset) {
        assert(set.push(asset)[set.len() as int] == asset);
    }
}

/// Reporting an asset removes no member.
pub proof fn lemma_with_asset_keeps(set: Seq<Address>, asset: Address, member: Address)
    requires
        set.contains(member),
    ensures
        with_asset(set, asset).contains(member),
{
    let w = choose|w: int| 0 <= w < set.len() && set[w] == member;
    if !set.contains(asset) {
        assert(set.push(asset)[w] == member);
    }
}

/// Reporting an asset to a set without repetitions gives one without
/// repetitions.
pub proof fn lemma_with_asset_distinct(set: Seq<Address>, asset: Address)
    requires
        set.no_duplicates(),
    ensures
        with_asset(set, asset).no_duplicates(),
{
}

} // verus!
