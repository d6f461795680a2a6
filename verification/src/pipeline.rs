//! The detail-fetch pipeline: one fetch slot per catalog entry, filled
//! strictly one at a time.  The machine hands out at most one fetch, takes
//! its outcome, and demands a settle step before the next fetch may start,
//! so entry `i + 1` can never be fetched before the settle delay following
//! entry `i`'s completion.  The application shell performs the actual HTTP
//! work and the delay between `begin_fetch` and `record`.

use vstd::prelude::*;
use crate::book::{Book, BookV, DetailError};
use crate::catalog::BookInfo;

verus! {

/// Per-entry fetch state: pending until the pipeline resolves it, then a
/// record or an error, never touched again.
#[derive(Debug, PartialEq, Eq)]
pub enum FetchSlot {
    Pending,
    Success(Book),
    Failed(DetailError),
}

/// Spec-level image of a `FetchSlot`.
pub enum FetchSlotV {
    Pending,
    Success(BookV),
    Failed(DetailError),
}

impl View for FetchSlot {
    type V = FetchSlotV;

    open spec fn view(&self) -> FetchSlotV {
        match self {
            FetchSlot::Pending => FetchSlotV::Pending,
            FetchSlot::Success(b) => FetchSlotV::Success(b@),
            FetchSlot::Failed(e) => FetchSlotV::Failed(*e),
        }
    }
}

impl DeepView for FetchSlot {
    type V = FetchSlotV;

    open spec fn deep_view(&self) -> FetchSlotV {
        self.view()
    }
}

/// The terminal slot an outcome produces.
pub open spec fn slot_for(outcome: Result<Book, DetailError>) -> FetchSlot {
    match outcome {
        Ok(b) => FetchSlot::Success(b),
        Err(e) => FetchSlot::Failed(e),
    }
}

/// Spec-level image of a fetch outcome.
pub open spec fn outcome_view(o: Result<Book, DetailError>) -> Result<BookV, DetailError> {
    match o {
        Ok(b) => Ok(b@),
        Err(e) => Err(e),
    }
}

/// The terminal slot image an outcome image produces.
pub open spec fn slot_for_v(o: Result<BookV, DetailError>) -> FetchSlotV {
    match o {
        Ok(b) => FetchSlotV::Success(b),
        Err(e) => FetchSlotV::Failed(e),
    }
}

/// Milliseconds the pipeline settles between one entry's completion and the
/// next entry's fetch.
pub const SETTLE_DELAY_MS: u64 = 50;

/// The sequential detail-fetch machine.  `slots[i]` belongs to
/// `entries[i]`; `next` is the first unresolved entry; `in_flight` says a
/// fetch was handed out and not yet recorded; `settled` says the delay after
/// the previous completion has elapsed.
#[derive(Debug)]
pub struct Pipeline {
    pub entries: Vec<BookInfo>,
    pub next: usize,
    pub in_flight: bool,
    pub settled: bool,
    pub slots: Vec<FetchSlot>,
}

impl Pipeline {
    /// Structural invariant: one slot per entry; every slot at or beyond
    /// `next` still pending, every slot before it resolved exactly once.
    pub open spec fn wf(self) -> bool {
        &&& self.slots@.len() == self.entries@.len()
        &&& self.next <= self.entries@.len()
        &&& (self.in_flight ==> self.next < self.entries@.len())
        &&& (self.in_flight ==> !self.settled)
        &&& (forall|i: int|
            self.next <= i < self.slots@.len() ==> #[trigger] self.slots@[i] is Pending)
        &&& (forall|i: int| 0 <= i < self.next ==> !(#[trigger] self.slots@[i] is Pending))
    }

    /// Open a pipeline over the ordered catalog, every slot pending.
    pub fn start(entries: Vec<BookInfo>) -> (p: Pipeline)
        ensures
            p.wf(),
            p.entries == entries,
            p.next == 0,
            !p.in_flight,
            p.settled,
            p.slots@.len() == entries@.len(),
            forall|i: int| 0 <= i < p.slots@.len() ==> #[trigger] p.slots@[i] is Pending,
    {
        let n = entries.len();
        let mut slots: Vec<FetchSlot> = Vec::new();
        while slots.len() < n
            invariant
                slots@.len() <= n,
                forall|i: int| 0 <= i < slots@.len() ==> #[trigger] slots@[i] is Pending,
            decreases n - slots@.len(),
        {
            slots.push(FetchSlot::Pending);
        }
        Pipeline { entries, next: 0, in_flight: false, settled: true, slots }
    }

    /// Whether every entry has been resolved.
    pub fn done(&self) -> (r: bool)
        ensures
            r == (self.next == self.entries@.len()),
    {
        self.next == self.entries.len()
    }

    /// Hand out the next entry's detail URL, marking a fetch in flight.
    /// Only callable settled and idle: a new fetch can never start before
    /// the settle step that follows the previous completion.
    pub fn begin_fetch(&mut self) -> (r: Option<String>)
        requires
            old(self).wf(),
            old(self).settled,
            !old(self).in_flight,
        ensures
            final(self).wf(),
            final(self).entries == old(self).entries,
            final(self).slots == old(self).slots,
            final(self).next == old(self).next,
            old(self).next < old(self).entries@.len() ==> {
                &&& r == Some(old(self).entries@[old(self).next as int].url)
                &&& final(self).in_flight
                &&& !final(self).settled
            },
            old(self).next >= old(self).entries@.len() ==> r is None && *final(self) == *old(
                self,
            ),
    {
        if self.next < self.entries.len() {
            self.in_flight = true;
            self.settled = false;
            Some(self.entries[self.next].url.clone())
        } else {
            None
        }
    }

    /// Record the in-flight fetch's outcome.  Resolves exactly the slot of
    /// the entry whose fetch was handed out — still pending until now — and
    /// moves on; the machine is unsettled until `settle` runs.
    pub fn record(&mut self, outcome: Result<Book, DetailError>) -> (idx: usize)
        requires
            old(self).wf(),
            old(self).in_flight,
        ensures
            final(self).wf(),
            idx == old(self).next,
            old(self).slots@[idx as int] is Pending,
            final(self).slots@ == old(self).slots@.update(idx as int, slot_for(outcome)),
            final(self).entries == old(self).entries,
            final(self).next == old(self).next + 1,
            !final(self).in_flight,
            !final(self).settled,
    {
        let n = self.entries.len();
        proof {
            assert(old(self).next < n);
        }
        let idx = self.next;
        let slot = match outcome {
            Ok(b) => FetchSlot::Success(b),
            Err(e) => FetchSlot::Failed(e),
        };
        self.slots.set(idx, slot);
        self.next = idx + 1;
        self.in_flight = false;
        idx
    }

    /// The settle delay after a completion has elapsed; the next fetch may
    /// start.
    pub fn settle(&mut self)
        requires
            old(self).wf(),
            !old(self).in_flight,
            !old(self).settled,
        ensures
            final(self).wf(),
            final(self).settled,
            !final(self).in_flight,
            final(self).entries == old(self).entries,
            final(self).slots == old(self).slots,
            final(self).next == old(self).next,
    {
        self.settled = true;
    }
}

/// Drive a whole pipeline over scripted fetch outcomes, one per entry, as
/// the application shell does with live HTTP responses.  Exactly one
/// indexed result is emitted per entry, index `i` at emission `i`: each
/// index is used exactly once, in entry order.
pub fn run_scripted(entries: Vec<BookInfo>, outcomes: &Vec<Result<Book, DetailError>>) -> (r: (
    Pipeline,
    Vec<usize>,
))
    requires
        outcomes@.len() == entries@.len(),
    ensures
        r.0.wf(),
        r.0.entries == entries,
        r.0.slots@.len() == entries@.len(),
        forall|i: int|
            0 <= i < outcomes@.len() ==> r.0.slots@[i]@ == slot_for_v(
                outcome_view(#[trigger] outcomes@[i]),
            ),
        r.1@.len() == outcomes@.len(),
        forall|i: int| 0 <= i < r.1@.len() ==> #[trigger] r.1@[i] == i,
{
    let ghost entries0 = entries;
    let n = entries.len();
    let mut p = Pipeline::start(entries);
    let mut emitted: Vec<usize> = Vec::new();
    let mut i: usize = 0;
    while i < n
        invariant
            p.wf(),
            !p.in_flight,
            p.settled,
            p.next == i,
            0 <= i <= n,
            p.entries == entries0,
            n == entries0@.len(),
            outcomes@.len() == n,
            p.slots@.len() == n,
            forall|j: int|
                0 <= j < i ==> p.slots@[j]@ == slot_for_v(outcome_view(#[trigger] outcomes@[j])),
            emitted@.len() == i,
            forall|j: int| 0 <= j < i ==> #[trigger] emitted@[j] == j,
        decreases n - i,
    {
        let _ = p.begin_fetch();
        let outcome = match &outcomes[i] {
            Ok(b) => Ok(b.clone()),
            Err(e) => Err(*e),
        };
        proof {
            assert(outcome_view(outcome) == outcome_view(outcomes@[i as int]));
            assert(slot_for(outcome)@ == slot_for_v(outcome_view(outcomes@[i as int])));
        }
        let idx = p.record(outcome);
        emitted.push(idx);
        p.settle();
        i = i + 1;
    }
    (p, emitted)
}

} // verus!
