//! Borrower positions rebuilt from the pool's borrow and supply events.
//!
//! A borrower appears when an event first names it and is never removed; an
//! event only ever adds an asset to one of its two sets. Folding events is
//! therefore idempotent: a window of events that has been folded in before
//! changes nothing when it is folded in again.

use crate::address::Address;
use crate::asset_set::{
    first_index, lemma_first_index, lemma_first_index_is, lemma_with_asset_idempotent,
    lemma_with_asset_keeps, with_asset, AddressSet,
};
use vstd::prelude::*;

verus! {

/// What an event reports of a position.
#[derive(Clone, Copy, Debug, PartialEq, Eq, Structural)]
pub enum EventKind {
    /// The account borrowed the reserve: the reserve joins its debt.
    Borrow,
    /// The account supplied the reserve: the reserve joins its collateral.
    Supply,
}

/// A borrow or supply event of the pool, reduced to what the agent reads.
#[derive(Clone, Copy, Debug, PartialEq, Eq)]
pub struct PositionEvent {
    pub kind: EventKind,
    /// The account whose position changed.
    pub on_behalf_of: Address,
    /// The asset borrowed or supplied.
    pub reserve: Address,
}

/// A borrower as the contracts see it.
pub struct BorrowerModel {
    pub address: Address,
    pub collateral: Seq<Address>,
    pub debt: Seq<Address>,
}

/// The borrower after an event about it.
pub open spec fn touched(b: BorrowerModel, kind: EventKind, reserve: Address) -> BorrowerModel {
    match kind {
        EventKind::Borrow => BorrowerModel {
            address: b.address,
            collateral: b.collateral,
            debt: with_asset(b.debt, reserve),
        },
        EventKind::Supply => BorrowerModel {
            address: b.address,
            collateral: with_asset(b.collateral, reserve),
            debt: b.debt,
        },
    }
}

/// The borrower that a first event creates.
pub open spec fn blank(address: Address) -> BorrowerModel {
    BorrowerModel { address, collateral: Seq::empty(), debt: Seq::empty() }
}

/// The accounts of a book, in its order.
pub open spec fn accounts(book: Seq<BorrowerModel>) -> Seq<Address> {
    book.map_values(|b: BorrowerModel| b.address)
}

/// The book after one event: the borrower it names gains the reserve, and is
/// created at the end of the book where the book does not know it yet.
pub open spec fn recorded(book: Seq<BorrowerModel>, event: PositionEvent) -> Seq<BorrowerModel> {
    let at = first_index(accounts(book), event.on_behalf_of);
    if at < book.len() {
        book.update(at, touched(book[at], event.kind, event.reserve))
    } else {
        book.push(touched(blank(event.on_behalf_of), event.kind, event.reserve))
    }
}

/// The book after a sequence of events, folded in from the first to the last.
pub open spec fn ingested(book: Seq<BorrowerModel>, events: Seq<PositionEvent>) -> Seq<
    BorrowerModel,
>
    decreases events.len(),
{
    if events.len() == 0 {
        book
    } else {
        recorded(ingested(book, events.drop_last()), events.last())
    }
}

/// The book after a borrower is entered whole: it takes the place of an
/// entry for the same account, or joins at the end.
pub open spec fn with_borrower(book: Seq<BorrowerModel>, borrower: BorrowerModel) -> Seq<
    BorrowerModel,
> {
    let at = first_index(accounts(book), borrower.address);
    if at < book.len() {
        book.update(at, borrower)
    } else {
        book.push(borrower)
    }
}

/// What holds of every book that events have built: no account occurs
/// twice, and no borrower names an asset twice in one of its sets.
pub open spec fn book_wf(book: Seq<BorrowerModel>) -> bool {
    &&& accounts(book).no_duplicates()
    &&& forall|i: int|
        0 <= i < book.len() ==> (#[trigger] book[i]).collateral.no_duplicates()
            && book[i].debt.no_duplicates()
}

/// The test for a borrower that has borrowed anything.
pub open spec fn has_debt() -> spec_fn(BorrowerModel) -> bool {
    |b: BorrowerModel| b.debt.len() > 0
}

/// The accounts that have borrowed at least one asset, in the order of the
/// book.
pub open spec fn debtor_accounts(book: Seq<BorrowerModel>) -> Seq<Address> {
    accounts(book.filter(has_debt()))
}

/// Whether the book already holds what the event reports.
pub open spec fn absorbed(book: Seq<BorrowerModel>, event: PositionEvent) -> bool {
    let at = first_index(accounts(book), event.on_behalf_of);
    at < book.len() && match event.kind {
        EventKind::Borrow => book[at].debt.contains(event.reserve),
        EventKind::Supply => book[at].collateral.contains(event.reserve),
    }
}

/// One borrower: its address, and the assets it has supplied and borrowed.
#[derive(Debug)]
pub struct Borrower {
    address: Address,
    collateral: AddressSet,
    debt: AddressSet,
}

impl Borrower {
    pub closed spec fn view(&self) -> BorrowerModel {
        BorrowerModel { address: self.address, collateral: self.collateral@, debt: self.debt@ }
    }

    /// Neither set names an asset twice.
    pub open spec fn wf(&self) -> bool {
        self@.collateral.no_duplicates() && self@.debt.no_duplicates()
    }

    /// A borrower without positions.
    pub fn new(address: Address) -> (r: Borrower)
        ensures
            r@ == blank(address),
            r.wf(),
    {
        Borrower { address, collateral: AddressSet::new(), debt: AddressSet::new() }
    }

    /// A borrower with the given sets.
    pub fn from_parts(address: Address, collateral: AddressSet, debt: AddressSet) -> (r: Borrower)
        ensures
            r@ == (BorrowerModel { address, collateral: collateral@, debt: debt@ }),
            collateral.wf() && debt.wf() ==> r.wf(),
    {
        Borrower { address, collateral, debt }
    }

    pub fn address(&self) -> (r: Address)
        ensures
            r == self@.address,
    {
        self.address
    }

    pub fn collateral(&self) -> (r: &AddressSet)
        ensures
            r@ == self@.collateral,
    {
        &self.collateral
    }

    pub fn debt(&self) -> (r: &AddressSet)
        ensures
            r@ == self@.debt,
    {
        &self.debt
    }

    /// Applies an event about this borrower.
    pub fn touch(&mut self, kind: EventKind, reserve: Address)
        ensures
            final(self)@ == touched(old(self)@, kind, reserve),
            old(self).wf() ==> final(self).wf(),
    {
        match kind {
            EventKind::Borrow => {
                self.debt.insert(reserve);
            },
            EventKind::Supply => {
                self.collateral.insert(reserve);
            },
        }
    }

    /// A copy of the borrower.
    pub fn duplicate(&self) -> (r: Borrower)
        ensures
            r@ == self@,
    {
        Borrower {
            address: self.address,
            collateral: self.collateral.duplicate(),
            debt: self.debt.duplicate(),
        }
    }
}

/// All known borrowers, in the order in which they first appeared.
#[derive(Debug)]
pub struct BorrowerBook {
    entries: Vec<Borrower>,
}

impl BorrowerBook {
    pub closed spec fn view(&self) -> Seq<BorrowerModel> {
        self.entries@.map_values(|b: Borrower| b@)
    }

    /// No account occurs twice, and no borrower names an asset twice in one
    /// of its sets.
    pub open spec fn wf(&self) -> bool {
        book_wf(self@)
    }

    /// The empty book.
    pub fn new() -> (r: BorrowerBook)
        ensures
            r@ == Seq::<BorrowerModel>::empty(),
            r.wf(),
    {
        BorrowerBook { entries: Vec::new() }
    }

    /// The number of borrowers.
    pub fn len(&self) -> (r: usize)
        ensures
            r == self@.len(),
    {
        self.entries.len()
    }

    /// The borrower at a position of the book.
    pub fn at(&self, i: usize) -> (r: &Borrower)
        requires
            i < self@.len(),
        ensures
            r@ == self@[i as int],
    {
        &self.entries[i]
    }

    /// The position of an account in the book.
    pub fn position(&self, account: &Address) -> (r: Option<usize>)
        ensures
            r matches Some(i) ==> i < self@.len() && i == first_index(accounts(self@), *account),
            r is None <==> first_index(accounts(self@), *account) == self@.len(),
    {
        let mut i: usize = 0;
        while i < self.entries.len()
            invariant
                i <= self.entries@.len(),
                forall|j: int| 0 <= j < i ==> accounts(self@)[j] != *account,
            decreases self.entries@.len() - i,
        {
            if self.entries[i].address.same(account) {
                proof {
                    lemma_first_index_is(accounts(self@), *account, i as int);
                }
                return Some(i);
            }
            i = i + 1;
        }
        proof {
            lemma_first_index_is(accounts(self@), *account, i as int);
        }
        None
    }

    /// The borrower with the given account, if the book knows it.
    pub fn get(&self, account: &Address) -> (r: Option<&Borrower>)
        ensures
            r matches Some(b) ==> first_index(accounts(self@), *account) < self@.len() && b@
                == self@[first_index(accounts(self@), *account)],
            r is None <==> first_index(accounts(self@), *account) == self@.len(),
    {
        match self.position(account) {
            Some(i) => Some(&self.entries[i]),
            None => None,
        }
    }

    /// Enters a borrower whole, in place of an earlier entry for the same
    /// account.
    pub fn insert(&mut self, borrower: Borrower)
        ensures
            final(self)@ == with_borrower(old(self)@, borrower@),
            old(self).wf() && borrower.wf() ==> final(self).wf(),
    {
        let ghost before = self@;
        match self.position(&borrower.address) {
            Some(i) => {
                self.entries[i] = borrower;
                proof {
                    assert(self@ =~= before.update(i as int, borrower@));
                    lemma_first_index(accounts(before), borrower@.address);
                    assert(accounts(self@) =~= accounts(before));
                }
            },
            None => {
                self.entries.push(borrower);
                proof {
                    assert(self@ =~= before.push(borrower@));
                    lemma_first_index(accounts(before), borrower@.address);
                    assert(accounts(self@) =~= accounts(before).push(borrower@.address));
                }
            },
        }
    }

    /// Folds one event into the book.
    pub fn record(&mut self, event: PositionEvent)
        ensures
            final(self)@ == recorded(old(self)@, event),
            old(self).wf() ==> final(self).wf(),
    {
        match self.position(&event.on_behalf_of) {
            Some(i) => {
                let ghost before = self@;
                let entry = &mut self.entries[i];
                entry.touch(event.kind, event.reserve);
                proof {
                    assert(self@ =~= before.update(
                        i as int,
                        touched(before[i as int], event.kind, event.reserve),
                    ));
                    assert(accounts(self@) =~= accounts(before));
                }
            },
            None => {
                let ghost before = self@;
                let mut fresh = Borrower::new(event.on_behalf_of);
                fresh.touch(event.kind, event.reserve);
                self.entries.push(fresh);
                proof {
                    assert(self@ =~= before.push(
                        touched(blank(event.on_behalf_of), event.kind, event.reserve),
                    ));
                    lemma_first_index(accounts(before), event.on_behalf_of);
                    assert(accounts(self@) =~= accounts(before).push(event.on_behalf_of));
                }
            },
        }
    }

    /// Folds a sequence of events into the book, the first event first.
    pub fn ingest(&mut self, events: &Vec<PositionEvent>)
        ensures
            final(self)@ == ingested(old(self)@, events@),
            old(self).wf() ==> final(self).wf(),
    {
        let mut i: usize = 0;
        while i < events.len()
            invariant
                i <= events@.len(),
                self@ == ingested(old(self)@, events@.take(i as int)),
                old(self).wf() ==> self.wf(),
            decreases events@.len() - i,
        {
            self.record(events[i]);
            proof {
                let t = events@.take(i + 1);
                assert(t.drop_last() == events@.take(i as int));
                assert(t.last() == events@[i as int]);
            }
            i = i + 1;
        }
        assert(events@.take(events@.len() as int) == events@);
    }

    /// A copy of the book.
    pub fn duplicate(&self) -> (r: BorrowerBook)
        ensures
            r@ == self@,
    {
        let mut out: Vec<Borrower> = Vec::new();
        let mut i: usize = 0;
        while i < self.entries.len()
            invariant
                i <= self.entries@.len(),
                out@.len() == i,
                forall|j: int| 0 <= j < i ==> out@[j]@ == self.entries@[j]@,
            decreases self.entries@.len() - i,
        {
            out.push(self.entries[i].duplicate());
            i = i + 1;
        }
        let r = BorrowerBook { entries: out };
        assert(r@ =~= self@);
        r
    }

    /// The accounts that have borrowed at least one asset, in the order of
    /// the book.
    pub fn debtors(&self) -> (r: Vec<Address>)
        ensures
            r@ == debtor_accounts(self@),
    {
        let mut out: Vec<Address> = Vec::new();
        let mut i: usize = 0;
        let ghost indebted = has_debt();
        while i < self.entries.len()
            invariant
                i <= self.entries@.len(),
                indebted == has_debt(),
                out@ == accounts(self@.take(i as int).filter(indebted)),
            decreases self.entries@.len() - i,
        {
            proof {
                let t = self@.take(i + 1);
                assert(t.drop_last() == self@.take(i as int));
                assert(t.last() == self@[i as int]);
                reveal(Seq::filter);
                assert(t.filter(indebted) == if indebted(t.last()) {
                    t.drop_last().filter(indebted).push(t.last())
                } else {
                    t.drop_last().filter(indebted)
                });
            }
            if !self.entries[i].debt.is_empty() {
                out.push(self.entries[i].address);
                assert(out@ =~= accounts(self@.take(i + 1).filter(indebted)));
            }
            i = i + 1;
        }
        assert(self@.take(self@.len() as int) == self@);
        out
    }
}

/// An event changes no account of the book, and a new account joins at the
/// end.
pub proof fn lemma_recorded_accounts(book: Seq<BorrowerModel>, event: PositionEvent)
    ensures
        accounts(recorded(book, event)) == with_asset(accounts(book), event.on_behalf_of),
        accounts(book).no_duplicates() ==> accounts(recorded(book, event)).no_duplicates(),
{
    let at = first_index(accounts(book), event.on_behalf_of);
    lemma_first_index(accounts(book), event.on_behalf_of);
    if at < book.len() {
        assert(accounts(recorded(book, event)) =~= accounts(book));
    } else {
        assert(accounts(recorded(book, event)) =~= accounts(book).push(event.on_behalf_of));
    }
}

/// Once an event is folded in, the book holds what it reports.
pub proof fn lemma_recorded_absorbs(book: Seq<BorrowerModel>, event: PositionEvent)
    ensures
        absorbed(recorded(book, event), event),
{
    let at = first_index(accounts(book), event.on_behalf_of);
    let after = recorded(book, event);
    lemma_first_index(accounts(book), event.on_behalf_of);
    lemma_recorded_accounts(book, event);
    lemma_first_index_is(accounts(after), event.on_behalf_of, at);
    if at < book.len() {
        lemma_with_asset_idempotent(book[at].debt, event.reserve);
        lemma_with_asset_idempotent(book[at].collateral, event.reserve);
    } else {
        lemma_with_asset_idempotent(Seq::empty(), event.reserve);
    }
}

/// What the book holds, it still holds after any further event.
pub proof fn lemma_recorded_keeps_absorbed(
    book: Seq<BorrowerModel>,
    event: PositionEvent,
    earlier: PositionEvent,
)
    requires
        absorbed(book, earlier),
    ensures
        absorbed(recorded(book, event), earlier),
{
    let at = first_index(accounts(book), event.on_behalf_of);
    let held = first_index(accounts(book), earlier.on_behalf_of);
    let after = recorded(book, event);
    lemma_first_index(accounts(book), event.on_behalf_of);
    lemma_first_index(accounts(book), earlier.on_behalf_of);
    lemma_recorded_accounts(book, event);
    lemma_first_index_is(accounts(after), earlier.on_behalf_of, held);
    if at == held {
        match earlier.kind {
            EventKind::Borrow => {
                lemma_with_asset_keeps(book[at].debt, event.reserve, earlier.reserve);
            },
            EventKind::Supply => {
                lemma_with_asset_keeps(book[at].collateral, event.reserve, earlier.reserve);
            },
        }
    }
}

/// An event that reports what the book already holds changes nothing.
pub proof fn lemma_absorbed_is_noop(book: Seq<BorrowerModel>, event: PositionEvent)
    requires
        absorbed(book, event),
    ensures
        recorded(book, event) == book,
{
    let at = first_index(accounts(book), event.on_behalf_of);
    lemma_first_index(accounts(book), event.on_behalf_of);
    assert(touched(book[at], event.kind, event.reserve) == book[at]);
    assert(book.update(at, book[at]) =~= book);
}

/// Folding in two sequences one after the other is folding in their
/// concatenation.
pub proof fn lemma_ingested_concat(
    book: Seq<BorrowerModel>,
    first: Seq<PositionEvent>,
    second: Seq<PositionEvent>,
)
    ensures
        ingested(book, first + second) == ingested(ingested(book, first), second),
    decreases second.len(),
{
    if second.len() == 0 {
        assert(first + second =~= first);
    } else {
        lemma_ingested_concat(book, first, second.drop_last());
        assert((first + second).drop_last() =~= first + second.drop_last());
        assert((first + second).last() == second.last());
    }
}

/// After a sequence of events is folded in, the book holds what each of them
/// reports.
pub proof fn lemma_ingested_absorbs(
    book: Seq<BorrowerModel>,
    events: Seq<PositionEvent>,
    i: int,
)
    requires
        0 <= i < events.len(),
    ensures
        absorbed(ingested(book, events), events[i]),
    decreases events.len(),
{
    let before = ingested(book, events.drop_last());
    if i == events.len() - 1 {
        lemma_recorded_absorbs(before, events.last());
    } else {
        lemma_ingested_absorbs(book, events.drop_last(), i);
        assert(events.drop_last()[i] == events[i]);
        lemma_recorded_keeps_absorbed(before, events.last(), events[i]);
    }
}

/// Folding in events that all report what the book already holds changes
/// nothing.
pub proof fn lemma_ingest_absorbed_is_noop(book: Seq<BorrowerModel>, events: Seq<PositionEvent>)
    requires
        forall|i: int| 0 <= i < events.len() ==> absorbed(book, #[trigger] events[i]),
    ensures
        ingested(book, events) == book,
    decreases events.len(),
{
    if events.len() > 0 {
        assert forall|i: int| 0 <= i < events.drop_last().len() implies absorbed(
            book,
            #[trigger] events.drop_last()[i],
        ) by {
            assert(events.drop_last()[i] == events[i]);
        }
        lemma_ingest_absorbed_is_noop(book, events.drop_last());
        assert(absorbed(book, events[events.len() - 1]));
        lemma_absorbed_is_noop(book, events.last());
    }
}

/// Idempotence of ingestion: after `history` has been folded in, folding in
/// any window made of events of `history` (the same window again, or one
/// that overlaps it) leaves the book as it is.
pub proof fn lemma_reingest_is_noop(
    book: Seq<BorrowerModel>,
    history: Seq<PositionEvent>,
    window: Seq<PositionEvent>,
)
    requires
        forall|i: int| 0 <= i < window.len() ==> history.contains(#[trigger] window[i]),
    ensures
        ingested(ingested(book, history), window) == ingested(book, history),
{
    let synced = ingested(book, history);
    assert forall|i: int| 0 <= i < window.len() implies absorbed(synced, #[trigger] window[i]) by {
        assert(history.contains(window[i]));
        let w = choose|w: int| 0 <= w < history.len() && history[w] == window[i];
        lemma_ingested_absorbs(book, history, w);
    }
    lemma_ingest_absorbed_is_noop(synced, window);
}

/// Folding the same window in twice gives the book that folding it in once
/// gives.
pub proof fn lemma_ingest_twice(book: Seq<BorrowerModel>, window: Seq<PositionEvent>)
    ensures
        ingested(ingested(book, window), window) == ingested(book, window),
        ingested(book, window + window) == ingested(book, window),
{
    assert forall|i: int| 0 <= i < window.len() implies window.contains(#[trigger] window[i]) by {}
    lemma_reingest_is_noop(book, window, window);
    lemma_ingested_concat(book, window, window);
}

/// Events never remove a borrower, nor an asset from a borrower's sets.
pub proof fn lemma_recorded_grows(book: Seq<BorrowerModel>, event: PositionEvent, i: int)
    requires
        0 <= i < book.len(),
    ensures
        i < recorded(book, event).len(),
        recorded(book, event)[i].address == book[i].address,
        forall|asset: Address|
            book[i].collateral.contains(asset) ==> recorded(book, event)[i].collateral.contains(
                asset,
            ),
        forall|asset: Address|
            book[i].debt.contains(asset) ==> recorded(book, event)[i].debt.contains(asset),
{
    let at = first_index(accounts(book), event.on_behalf_of);
    lemma_first_index(accounts(book), event.on_behalf_of);
    assert forall|asset: Address| book[i].collateral.contains(asset) implies recorded(
        book,
        event,
    )[i].collateral.contains(asset) by {
        lemma_with_asset_keeps(book[i].collateral, event.reserve, asset);
    }
    assert forall|asset: Address| book[i].debt.contains(asset) implies recorded(
        book,
        event,
    )[i].debt.contains(asset) by {
        lemma_with_asset_keeps(book[i].debt, event.reserve, asset);
    }
}

/// Events keep a book well formed.
pub proof fn lemma_ingested_keeps_wf(book: Seq<BorrowerModel>, events: Seq<PositionEvent>)
    requires
        book_wf(book),
    ensures
        book_wf(ingested(book, events)),
    decreases events.len(),
{
    if events.len() > 0 {
        let before = ingested(book, events.drop_last());
        let event = events.last();
        lemma_ingested_keeps_wf(book, events.drop_last());
        lemma_recorded_accounts(before, event);
        lemma_first_index(accounts(before), event.on_behalf_of);
        let after = recorded(before, event);
        assert forall|i: int| 0 <= i < after.len() implies (#[trigger] after[i]).collateral.no_duplicates()
            && after[i].debt.no_duplicates() by {
            if i < before.len() {
                assert(before[i].collateral.no_duplicates() && before[i].debt.no_duplicates());
            }
        }
    }
}

/// A pass of events removes no borrower, and no asset from a borrower's
/// sets.
pub proof fn lemma_ingested_grows(book: Seq<BorrowerModel>, events: Seq<PositionEvent>, i: int)
    requires
        0 <= i < book.len(),
    ensures
        i < ingested(book, events).len(),
        ingested(book, events)[i].address == book[i].address,
        forall|asset: Address|
            book[i].collateral.contains(asset) ==> ingested(book, events)[i].collateral.contains(
                asset,
            ),
        forall|asset: Address|
            book[i].debt.contains(asset) ==> ingested(book, events)[i].debt.contains(asset),
    decreases events.len(),
{
    if events.len() > 0 {
        let before = ingested(book, events.drop_last());
        lemma_ingested_grows(book, events.drop_last(), i);
        lemma_recorded_grows(before, events.last(), i);
    }
}

} // verus!
