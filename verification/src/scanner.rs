//! The search for underwater borrowers.
//!
//! Health factors are asked for in chunks of [`MULTICALL_CHUNK_SIZE`]
//! borrowers. A borrower is underwater when its health factor is below one
//! wad. The search stops asking once [`MAX_CANDIDATES`] borrowers have been
//! found, and hands out at most that many, the least healthy first.

use crate::address::Address;
use crate::u256::U256;
use vstd::prelude::*;

verus! {

/// How many health factors are asked for in one round trip.
pub const MULTICALL_CHUNK_SIZE: usize = 500;

/// How many candidates a cycle evaluates at most.
pub const MAX_CANDIDATES: usize = 50;

/// A health factor of exactly one, in wads.
pub const HEALTH_FACTOR_ONE: u128 = 1_000_000_000_000_000_000;

/// An underwater borrower and its health factor.
#[derive(Clone, Copy, Debug, PartialEq, Eq)]
pub struct Candidate {
    pub borrower: Address,
    pub health_factor: U256,
}

/// Whether a health factor makes a position eligible for liquidation.
pub open spec fn is_underwater(health_factor: nat) -> bool {
    health_factor < HEALTH_FACTOR_ONE
}

/// The smaller of two lengths.
pub open spec fn shorter(a: nat, b: nat) -> nat {
    if a <= b {
        a
    } else {
        b
    }
}

/// The underwater borrowers among the first `n` of a chunk, `factors[i]`
/// being the health factor of `chunk[i]`.
pub open spec fn underwater(chunk: Seq<Address>, factors: Seq<U256>, n: nat) -> Seq<Candidate>
    decreases n,
{
    if n == 0 {
        Seq::empty()
    } else {
        let rest = underwater(chunk, factors, (n - 1) as nat);
        if is_underwater(factors[n - 1]@) {
            rest.push(Candidate { borrower: chunk[n - 1], health_factor: factors[n - 1] })
        } else {
            rest
        }
    }
}

/// Whether health factors never decrease along the sequence.
pub open spec fn ascending(list: Seq<Candidate>) -> bool {
    forall|i: int, j: int|
        0 <= i < j < list.len() ==> list[i].health_factor@ <= list[j].health_factor@
}

/// Where a candidate with the given health factor joins a ranked list:
/// behind every candidate that is not healthier than it.
pub open spec fn insertion_point(list: Seq<Candidate>, health_factor: nat) -> int
    decreases list.len(),
{
    if list.len() == 0 {
        0
    } else if list[0].health_factor@ > health_factor {
        0
    } else {
        1 + insertion_point(list.drop_first(), health_factor)
    }
}

/// The candidates by ascending health factor; candidates with the same
/// health factor stay in the order in which they were found.
pub open spec fn ranked(found: Seq<Candidate>) -> Seq<Candidate>
    decreases found.len(),
{
    if found.len() == 0 {
        Seq::empty()
    } else {
        let rest = ranked(found.drop_last());
        rest.insert(insertion_point(rest, found.last().health_factor@), found.last())
    }
}

/// What a cycle evaluates: the ranked candidates, cut off at
/// `MAX_CANDIDATES`.
pub open spec fn shortlist(found: Seq<Candidate>) -> Seq<Candidate> {
    ranked(found).take(shorter(MAX_CANDIDATES as nat, found.len()) as int)
}

/// `insertion_point` is the first position that holds a healthier
/// candidate, or the length where there is none.
pub proof fn lemma_insertion_point(list: Seq<Candidate>, health_factor: nat)
    ensures
        0 <= insertion_point(list, health_factor) <= list.len(),
        forall|j: int|
            0 <= j < insertion_point(list, health_factor) ==> list[j].health_factor@
                <= health_factor,
        insertion_point(list, health_factor) < list.len() ==> list[insertion_point(
            list,
            health_factor,
        )].health_factor@ > health_factor,
    decreases list.len(),
{
    if list.len() > 0 && list[0].health_factor@ <= health_factor {
        let rest = list.drop_first();
        lemma_insertion_point(rest, health_factor);
        let r = insertion_point(rest, health_factor);
        assert forall|j: int| 0 <= j < r + 1 implies list[j].health_factor@ <= health_factor by {
            if j > 0 {
                assert(list[j] == rest[j - 1]);
            }
        }
        if r < rest.len() {
            assert(list[r + 1] == rest[r]);
        }
    }
}

/// A position with the two properties of `insertion_point` is it.
pub proof fn lemma_insertion_point_is(list: Seq<Candidate>, health_factor: nat, at: int)
    requires
        0 <= at <= list.len(),
        forall|j: int| 0 <= j < at ==> list[j].health_factor@ <= health_factor,
        at < list.len() ==> list[at].health_factor@ > health_factor,
    ensures
        insertion_point(list, health_factor) == at,
{
    lemma_insertion_point(list, health_factor);
    let p = insertion_point(list, health_factor);
    if p < at {
        assert(list[p].health_factor@ <= health_factor);
    }
}

/// A ranked list has the length of what was found, and its health factors
/// never decrease.
pub proof fn lemma_ranked_ascending(found: Seq<Candidate>)
    ensures
        ranked(found).len() == found.len(),
        ascending(ranked(found)),
    decreases found.len(),
{
    if found.len() > 0 {
        let rest = ranked(found.drop_last());
        let c = found.last();
        lemma_ranked_ascending(found.drop_last());
        lemma_insertion_point(rest, c.health_factor@);
        let p = insertion_point(rest, c.health_factor@);
        let out = rest.insert(p, c);
        assert forall|i: int, j: int| 0 <= i < j < out.len() implies out[i].health_factor@
            <= out[j].health_factor@ by {
            if j < p {
                assert(out[i] == rest[i] && out[j] == rest[j]);
            } else if j == p {
                assert(out[i] == rest[i]);
            } else if i < p {
                assert(out[i] == rest[i] && out[j] == rest[j - 1]);
                if p < j - 1 {
                    assert(rest[p].health_factor@ <= rest[j - 1].health_factor@);
                }
            } else if i == p {
                assert(out[j] == rest[j - 1]);
                if p < j - 1 {
                    assert(rest[p].health_factor@ <= rest[j - 1].health_factor@);
                }
            } else {
                assert(out[i] == rest[i - 1] && out[j] == rest[j - 1]);
            }
        }
    }
}

/// Ranking neither loses nor invents a candidate.
pub proof fn lemma_ranked_permutation(found: Seq<Candidate>)
    ensures
        ranked(found).to_multiset() == found.to_multiset(),
    decreases found.len(),
{
    broadcast use vstd::seq_lib::group_to_multiset_ensures;

    if found.len() > 0 {
        let rest = ranked(found.drop_last());
        let c = found.last();
        lemma_ranked_permutation(found.drop_last());
        lemma_insertion_point(rest, c.health_factor@);
        let p = insertion_point(rest, c.health_factor@);
        assert(found =~= found.drop_last().push(c));
        assert(rest.insert(p, c).to_multiset() == rest.to_multiset().insert(c));
        assert(found.drop_last().push(c).to_multiset() == found.drop_last().to_multiset().insert(
            c,
        ));
    } else {
        assert(ranked(found) =~= found);
    }
}

/// No candidate that the cut-off drops is less healthy than one that is
/// handed out.
pub proof fn lemma_shortlist_takes_least_healthy(found: Seq<Candidate>, kept: int, dropped: int)
    requires
        0 <= kept < shortlist(found).len(),
        shortlist(found).len() <= dropped < found.len(),
    ensures
        shortlist(found)[kept].health_factor@ <= ranked(found)[dropped].health_factor@,
        ascending(shortlist(found)),
        shortlist(found).len() <= MAX_CANDIDATES,
{
    lemma_ranked_ascending(found);
}

/// The test for a given health factor.
pub open spec fn has_health_factor(health_factor: nat) -> spec_fn(Candidate) -> bool {
    |c: Candidate| c.health_factor@ == health_factor
}

/// The candidates with a given health factor, in their order.
pub open spec fn with_health_factor(list: Seq<Candidate>, health_factor: nat) -> Seq<Candidate> {
    list.filter(has_health_factor(health_factor))
}

/// Ranking is stable: candidates with the same health factor come out in
/// the order in which they were found.
pub proof fn lemma_ranked_stable(found: Seq<Candidate>, health_factor: nat)
    ensures
        with_health_factor(ranked(found), health_factor) == with_health_factor(
            found,
            health_factor,
        ),
    decreases found.len(),
{
    let same = has_health_factor(health_factor);
    if found.len() == 0 {
        assert(ranked(found) =~= found);
    } else {
        let init = found.drop_last();
        let c = found.last();
        let rest = ranked(init);
        lemma_ranked_stable(init, health_factor);
        lemma_ranked_ascending(init);
        lemma_insertion_point(rest, c.health_factor@);
        let p = insertion_point(rest, c.health_factor@);
        let head = rest.subrange(0, p);
        let tail = rest.subrange(p, rest.len() as int);
        assert(rest =~= head + tail);
        assert(rest.insert(p, c) =~= (head + seq![c]) + tail);
        assert(found =~= init + seq![c]);
        Seq::filter_distributes_over_add(head, tail, same);
        Seq::filter_distributes_over_add(head, seq![c], same);
        Seq::filter_distributes_over_add(head + seq![c], tail, same);
        Seq::filter_distributes_over_add(init, seq![c], same);
        assert(seq![c].filter(same) =~= if same(c) {
            seq![c]
        } else {
            Seq::empty()
        }) by {
            reveal_with_fuel(Seq::filter, 2);
            assert(seq![c].drop_last() =~= Seq::<Candidate>::empty());
        }
        if same(c) {
            assert forall|i: int| 0 <= i < tail.len() implies !same(#[trigger] tail[i]) by {
                assert(tail[i] == rest[p + i]);
                if i > 0 {
                    assert(rest[p].health_factor@ <= rest[p + i].health_factor@);
                }
            }
            assert(tail.all(|x: Candidate| !same(x)));
            tail.lemma_all_neg_filter_empty(same);
            assert(tail.filter(same) =~= Seq::<Candidate>::empty());
            assert(head.filter(same) + seq![c] + Seq::<Candidate>::empty() =~= head.filter(same)
                + Seq::<Candidate>::empty() + seq![c]);
        } else {
            assert(head.filter(same) + Seq::<Candidate>::empty() + tail.filter(same)
                =~= head.filter(same) + tail.filter(same));
            assert(init.filter(same) + Seq::<Candidate>::empty() =~= init.filter(same));
        }
    }
}

fn insertion_index(list: &Vec<Candidate>, health_factor: &U256) -> (r: usize)
    ensures
        r == insertion_point(list@, health_factor@),
{
    let mut i: usize = 0;
    while i < list.len()
        invariant
            i <= list@.len(),
            forall|j: int| 0 <= j < i ==> list@[j].health_factor@ <= health_factor@,
        decreases list@.len() - i,
    {
        if list[i].health_factor.gt(health_factor) {
            proof {
                lemma_insertion_point_is(list@, health_factor@, i as int);
            }
            return i;
        }
        i = i + 1;
    }
    proof {
        lemma_insertion_point_is(list@, health_factor@, i as int);
    }
    i
}

/// Ranks candidates by ascending health factor, keeping the order of
/// discovery among equals.
pub fn rank(found: &Vec<Candidate>) -> (r: Vec<Candidate>)
    ensures
        r@ == ranked(found@),
        r@.len() == found@.len(),
        ascending(r@),
        r@.to_multiset() == found@.to_multiset(),
{
    let mut out: Vec<Candidate> = Vec::new();
    let mut i: usize = 0;
    while i < found.len()
        invariant
            i <= found@.len(),
            out@ == ranked(found@.take(i as int)),
            out@.len() == i,
        decreases found@.len() - i,
    {
        let c = found[i];
        proof {
            let t = found@.take(i + 1);
            assert(t.drop_last() == found@.take(i as int));
            assert(t.last() == found@[i as int]);
            lemma_insertion_point(out@, c.health_factor@);
        }
        let at = insertion_index(&out, &c.health_factor);
        out.insert(at, c);
        i = i + 1;
    }
    proof {
        assert(found@.take(found@.len() as int) == found@);
        lemma_ranked_ascending(found@);
        lemma_ranked_permutation(found@);
    }
    out
}

/// A search as the contracts see it.
pub struct ScanModel {
    /// The borrowers to ask about, in order.
    pub pending: Seq<Address>,
    /// How many of them have been asked about.
    pub cursor: nat,
    /// The underwater borrowers found so far, in order of discovery.
    pub found: Seq<Candidate>,
}

/// Whether the search asks no further: every borrower has been asked about,
/// or enough candidates have been found.
pub open spec fn scan_done(scan: ScanModel) -> bool {
    scan.cursor >= scan.pending.len() || scan.found.len() >= MAX_CANDIDATES
}

/// The borrowers of the next chunk.
pub open spec fn next_chunk_model(scan: ScanModel) -> Seq<Address> {
    scan.pending.subrange(
        scan.cursor as int,
        shorter(scan.cursor + MULTICALL_CHUNK_SIZE as nat, scan.pending.len()) as int,
    )
}

/// The search after the health factors of the next chunk have arrived.
pub open spec fn after_chunk(scan: ScanModel, factors: Seq<U256>) -> ScanModel {
    let chunk = next_chunk_model(scan);
    ScanModel {
        pending: scan.pending,
        cursor: scan.cursor + chunk.len(),
        found: scan.found + underwater(chunk, factors, shorter(chunk.len(), factors.len())),
    }
}

/// A search for underwater borrowers, one chunk at a time.
#[derive(Debug)]
pub struct UnderwaterScan {
    pending: Vec<Address>,
    cursor: usize,
    found: Vec<Candidate>,
}

impl UnderwaterScan {
    pub closed spec fn view(&self) -> ScanModel {
        ScanModel { pending: self.pending@, cursor: self.cursor as nat, found: self.found@ }
    }

    /// A search among the given borrowers.
    pub fn new(borrowers: Vec<Address>) -> (r: UnderwaterScan)
        ensures
            r@ == (ScanModel { pending: borrowers@, cursor: 0, found: Seq::empty() }),
    {
        UnderwaterScan { pending: borrowers, cursor: 0, found: Vec::new() }
    }

    /// How many borrowers the search covers.
    pub fn total(&self) -> (r: usize)
        ensures
            r == self@.pending.len(),
    {
        self.pending.len()
    }

    /// How many borrowers have been asked about.
    pub fn scanned(&self) -> (r: usize)
        ensures
            r == self@.cursor,
    {
        self.cursor
    }

    /// How many underwater borrowers have been found.
    pub fn found_count(&self) -> (r: usize)
        ensures
            r == self@.found.len(),
    {
        self.found.len()
    }

    /// The borrowers whose health factors to ask for next, or `None` when
    /// the search is over.
    pub fn next_chunk(&self) -> (r: Option<Vec<Address>>)
        ensures
            r is None <==> scan_done(self@),
            r matches Some(chunk) ==> chunk@ == next_chunk_model(self@),
    {
        if self.cursor >= self.pending.len() || self.found.len() >= MAX_CANDIDATES {
            return None;
        }
        let end = if self.pending.len() - self.cursor > MULTICALL_CHUNK_SIZE {
            self.cursor + MULTICALL_CHUNK_SIZE
        } else {
            self.pending.len()
        };
        let mut chunk: Vec<Address> = Vec::new();
        let mut i: usize = self.cursor;
        while i < end
            invariant
                self.cursor <= i <= end <= self.pending@.len(),
                chunk@ == self.pending@.subrange(self.cursor as int, i as int),
            decreases end - i,
        {
            chunk.push(self.pending[i]);
            assert(self.pending@.subrange(self.cursor as int, i + 1) == self.pending@.subrange(
                self.cursor as int,
                i as int,
            ).push(self.pending@[i as int]));
            i = i + 1;
        }
        Some(chunk)
    }

    /// Takes in the health factors of the chunk that `next_chunk` named,
    /// `factors[i]` being that of the chunk's borrower `i`. Where fewer
    /// factors than borrowers arrive, the borrowers beyond them are passed
    /// over. A search that is over stays as it is.
    pub fn record_chunk(&mut self, factors: &Vec<U256>)
        ensures
            final(self)@ == (if scan_done(old(self)@) {
                old(self)@
            } else {
                after_chunk(old(self)@, factors@)
            }),
    {
        if self.cursor >= self.pending.len() || self.found.len() >= MAX_CANDIDATES {
            return ;
        }
        let end = if self.pending.len() - self.cursor > MULTICALL_CHUNK_SIZE {
            self.cursor + MULTICALL_CHUNK_SIZE
        } else {
            self.pending.len()
        };
        let width = end - self.cursor;
        let n = if width <= factors.len() {
            width
        } else {
            factors.len()
        };
        let one = U256::from_u128(HEALTH_FACTOR_ONE);
        let ghost chunk = next_chunk_model(self@);
        let ghost before = self.found@;
        let mut i: usize = 0;
        while i < n
            invariant
                i <= n,
                n <= factors@.len(),
                n <= chunk.len(),
                one@ == HEALTH_FACTOR_ONE,
                self.cursor + chunk.len() == end,
                end <= self.pending@.len(),
                self.pending@ == old(self)@.pending,
                self.cursor == old(self)@.cursor,
                chunk == next_chunk_model(old(self)@),
                self.found@ == before + underwater(chunk, factors@, i as nat),
            decreases n - i,
        {
            if factors[i].lt(&one) {
                self.found.push(
                    Candidate {
                        borrower: self.pending[self.cursor + i],
                        health_factor: factors[i],
                    },
                );
                assert(self.found@ =~= before + underwater(chunk, factors@, (i + 1) as nat));
            }
            i = i + 1;
        }
        self.cursor = end;
    }

    /// The candidates to evaluate: at most `MAX_CANDIDATES`, the least
    /// healthy first.
    pub fn finish(&self) -> (r: Vec<Candidate>)
        ensures
            r@ == shortlist(self@.found),
            ascending(r@),
            r@.len() <= MAX_CANDIDATES,
    {
        let mut out = rank(&self.found);
        out.truncate(MAX_CANDIDATES);
        proof {
            lemma_ranked_ascending(self.found@);
        }
        out
    }
}

} // verus!
