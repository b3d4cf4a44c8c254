//! The append-only collection of a batch's outcomes.

use vstd::prelude::*;
use crate::executor::TransferOutcome;

verus! {

/// The outcomes of a batch, in the order in which they arrived. Nothing is
/// ever removed or changed: the only update appends one outcome.
pub struct ResultSet {
    entries: Vec<TransferOutcome>,
}

impl View for ResultSet {
    type V = Seq<TransferOutcome>;

    closed spec fn view(&self) -> Seq<TransferOutcome> {
        self.entries@
    }
}

impl ResultSet {
    /// An empty collection, as at the start of a batch.
    pub fn new() -> (r: ResultSet)
        ensures
            r@ == Seq::<TransferOutcome>::empty(),
    {
        ResultSet { entries: Vec::new() }
    }

    /// Adds one outcome after those already there.
    pub fn append(&mut self, outcome: TransferOutcome)
        ensures
            final(self)@ == old(self)@.push(outcome),
    {
        self.entries.push(outcome);
    }

    /// How many outcomes have arrived.
    pub fn len(&self) -> (r: usize)
        ensures
            r == self@.len(),
    {
        self.entries.len()
    }

    /// The outcomes, in order of arrival.
    pub fn entries(&self) -> (r: &Vec<TransferOutcome>)
        ensures
            r@ == self@,
    {
        &self.entries
    }

    /// Gives up the collection for its outcomes, in order of arrival.
    pub fn into_entries(self) -> (r: Vec<TransferOutcome>)
        ensures
            r@ == self@,
    {
        self.entries
    }
}

/// The collection of a batch that knows how many transfers were dispatched.
/// Its outcomes can be read only once every one of them has arrived.
pub struct BatchResults {
    dispatched: usize,
    results: ResultSet,
}

impl BatchResults {
    pub closed spec fn dispatched_spec(&self) -> nat {
        self.dispatched as nat
    }

    pub closed spec fn arrived(&self) -> Seq<TransferOutcome> {
        self.results@
    }

    /// An empty collection awaiting `dispatched` outcomes.
    pub fn new(dispatched: usize) -> (r: BatchResults)
        ensures
            r.dispatched_spec() == dispatched,
            r.arrived() == Seq::<TransferOutcome>::empty(),
    {
        BatchResults { dispatched, results: ResultSet::new() }
    }

    /// Records the outcome of one finished transfer. Refused, leaving the
    /// collection as it was, once all dispatched outcomes are in.
    pub fn record(&mut self, outcome: TransferOutcome) -> (accepted: bool)
        ensures
            final(self).dispatched_spec() == old(self).dispatched_spec(),
            accepted == (old(self).arrived().len() < old(self).dispatched_spec()),
            accepted ==> final(self).arrived() == old(self).arrived().push(outcome),
            !accepted ==> final(self).arrived() == old(self).arrived(),
    {
        if self.results.len() < self.dispatched {
            self.results.append(outcome);
            true
        } else {
            false
        }
    }

    /// Whether every dispatched transfer has reported.
    pub fn is_complete(&self) -> (r: bool)
        ensures
            r == (self.arrived().len() == self.dispatched_spec()),
    {
        self.results.len() == self.dispatched
    }

    /// The outcomes, once all have arrived; `None` while any is outstanding.
    pub fn finish(self) -> (r: Option<ResultSet>)
        ensures
            r is Some <==> self.arrived().len() == self.dispatched_spec(),
            r is Some ==> r.unwrap()@ == self.arrived() && r.unwrap()@.len() == self.dispatched_spec(),
    {
        if self.results.len() == self.dispatched {
            Some(self.results)
        } else {
            None
        }
    }
}

/// The collection after `arrivals` were appended one at a time to `start`.
pub open spec fn after_appends(start: Seq<TransferOutcome>, arrivals: Seq<TransferOutcome>) -> Seq<TransferOutcome>
    decreases arrivals.len(),
{
    if arrivals.len() == 0 {
        start
    } else {
        after_appends(start, arrivals.drop_last()).push(arrivals.last())
    }
}

/// Appends lose nothing, in whatever order the outcomes of `k` finished
/// transfers arrive: an empty collection ends with exactly those `k` outcomes.
pub proof fn lemma_appends_lose_nothing(arrivals: Seq<TransferOutcome>)
    ensures
        after_appends(Seq::empty(), arrivals) == arrivals,
        after_appends(Seq::empty(), arrivals).len() == arrivals.len(),
        after_appends(Seq::empty(), arrivals).to_multiset() == arrivals.to_multiset(),
    decreases arrivals.len(),
{
    if arrivals.len() > 0 {
        lemma_appends_lose_nothing(arrivals.drop_last());
        assert(arrivals.drop_last().push(arrivals.last()) =~= arrivals);
    }
}

} // verus!
