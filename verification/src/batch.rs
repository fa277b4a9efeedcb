//! A batch of checks: one request for each URL, all under one timeout, and one
//! slot for each result. Checks run side by side and end in any order; the
//! batch is done when every slot is filled, and hands the results out in the
//! order of the URLs.

use crate::check::{result_of, CheckRequest, CheckRequestView, CheckResult, CheckResultView};
use crate::outcome::{response_view, Outcome};
use crate::timeout::Timeout;
use crate::urls::texts;
use vstd::prelude::*;

verus! {

/// The state of a batch as a mathematical value: the URLs, the timeout in
/// nanoseconds, and for each URL the result of its check once that is in.
pub struct BatchView {
    pub urls: Seq<Seq<char>>,
    pub timeout: u64,
    pub slots: Seq<Option<CheckResultView>>,
}

/// Why a result was not taken in.
#[derive(Clone, Copy, Debug, PartialEq, Eq, Structural)]
pub enum RecordError {
    /// The batch has no URL at this index.
    UnknownIndex,
    /// The check at this index has a result already.
    AlreadyRecorded,
}

impl BatchView {
    /// The batch for `urls` before any check has ended.
    pub open spec fn start(urls: Seq<Seq<char>>, timeout: u64) -> BatchView {
        BatchView { urls, timeout, slots: Seq::new(urls.len(), |i: int| None) }
    }

    /// There is one slot for each URL, and a result stands in the slot of the
    /// URL it is about.
    pub open spec fn wf(self) -> bool {
        &&& self.slots.len() == self.urls.len()
        &&& forall|i: int|
            0 <= i < self.slots.len() ==> (#[trigger] self.slots[i] matches Some(result)
                ==> result.url == self.urls[i])
    }

    /// The requests to send: one for each URL, in order, each with the timeout
    /// of the batch.
    pub open spec fn requests(self) -> Seq<CheckRequestView> {
        Seq::new(
            self.urls.len(),
            |i: int| CheckRequestView { url: self.urls[i], timeout: self.timeout },
        )
    }

    /// Whether a result for the check at `index` is taken in, or why not.
    pub open spec fn admits(self, index: int) -> Result<(), RecordError> {
        if !(0 <= index < self.slots.len()) {
            Err(RecordError::UnknownIndex)
        } else if self.slots[index] is Some {
            Err(RecordError::AlreadyRecorded)
        } else {
            Ok(())
        }
    }

    /// The batch after the check at `index` has ended in `response`: its slot
    /// holds the result, every other slot is as it was.
    pub open spec fn record(
        self,
        index: int,
        elapsed_nanos: u64,
        response: Result<u16, Seq<char>>,
    ) -> BatchView {
        BatchView {
            slots: self.slots.update(
                index,
                Some(result_of(self.urls[index], elapsed_nanos, response)),
            ),
            ..self
        }
    }

    /// Whether every check has ended.
    pub open spec fn complete(self) -> bool {
        forall|i: int| 0 <= i < self.slots.len() ==> (#[trigger] self.slots[i]) is Some
    }

    /// The results in the order of the URLs. Only a complete batch has them all.
    pub open spec fn results(self) -> Seq<CheckResultView> {
        Seq::new(self.slots.len(), |i: int| self.slots[i]->0)
    }
}

/// A list of requests as a mathematical value.
pub open spec fn requests_view(requests: Seq<CheckRequest>) -> Seq<CheckRequestView> {
    Seq::new(requests.len(), |i: int| requests[i]@)
}

/// A list of results as a mathematical value.
pub open spec fn results_view(results: Seq<CheckResult>) -> Seq<CheckResultView> {
    Seq::new(results.len(), |i: int| results[i]@)
}

/// Results that may not be there yet, as a mathematical value.
pub open spec fn finished_view(results: Option<Vec<CheckResult>>) -> Option<Seq<CheckResultView>> {
    match results {
        Some(list) => Some(results_view(list@)),
        None => None,
    }
}

/// How one check ended, before it is joined with its URL.
#[derive(Debug)]
struct Ending {
    elapsed_nanos: u64,
    outcome: Outcome,
}

/// The slots of a batch as mathematical values: an ending becomes the result
/// for the URL whose slot it stands in.
spec fn slots_view(urls: Seq<String>, slots: Seq<Option<Ending>>) -> Seq<Option<CheckResultView>> {
    Seq::new(
        slots.len(),
        |i: int|
            match slots[i] {
                Some(ending) => Some(
                    CheckResultView {
                        url: urls[i]@,
                        elapsed_nanos: ending.elapsed_nanos,
                        outcome: ending.outcome@,
                    },
                ),
                None => None,
            },
    )
}

/// A batch of checks in progress.
#[derive(Debug)]
pub struct Batch {
    urls: Vec<String>,
    timeout: Timeout,
    slots: Vec<Option<Ending>>,
}

impl View for Batch {
    type V = BatchView;

    closed spec fn view(&self) -> BatchView {
        BatchView {
            urls: texts(self.urls@),
            timeout: self.timeout@,
            slots: slots_view(self.urls@, self.slots@),
        }
    }
}

impl Batch {
    #[verifier::type_invariant]
    spec fn consistent(self) -> bool {
        self.slots@.len() == self.urls@.len()
    }

    /// Opens a batch for `urls`, each to be checked under `timeout`. Nothing
    /// has been recorded yet. A batch without URLs is complete as it stands.
    pub fn new(urls: Vec<String>, timeout: Timeout) -> (batch: Batch)
        ensures
            batch@ == BatchView::start(texts(urls@), timeout@),
            batch@.wf(),
    {
        let mut slots: Vec<Option<Ending>> = Vec::new();
        while slots.len() < urls.len()
            invariant
                slots.len() <= urls.len(),
                forall|i: int| 0 <= i < slots.len() ==> slots@[i] is None,
            decreases urls.len() - slots.len(),
        {
            slots.push(None);
        }
        let batch = Batch { urls, timeout, slots };
        assert(batch@.slots =~= BatchView::start(texts(urls@), timeout@).slots);
        batch
    }

    /// How many URLs the batch has.
    pub fn len(&self) -> (count: usize)
        ensures
            count == self@.urls.len(),
    {
        self.urls.len()
    }

    /// The requests to send, one for each URL in the order given.
    pub fn requests(&self) -> (requests: Vec<CheckRequest>)
        ensures
            requests.len() == self@.urls.len(),
            requests_view(requests@) == self@.requests(),
    {
        let mut requests: Vec<CheckRequest> = Vec::new();
        while requests.len() < self.urls.len()
            invariant
                requests.len() <= self.urls.len(),
                forall|i: int|
                    0 <= i < requests.len() ==> (#[trigger] requests@[i])@ == (CheckRequestView {
                        url: self.urls@[i]@,
                        timeout: self.timeout@,
                    }),
            decreases self.urls.len() - requests.len(),
        {
            let url = self.urls[requests.len()].clone();
            requests.push(CheckRequest { url, timeout: self.timeout });
        }
        assert(requests_view(requests@) =~= self@.requests());
        requests
    }

    /// Takes in how the check at `index` ended. The first result for an index
    /// of the batch is kept; a result for an index that the batch does not
    /// have, or that has a result already, is turned down and changes nothing.
    pub fn record(&mut self, index: usize, elapsed_nanos: u64, response: Result<u16, String>) -> (done:
        Result<(), RecordError>)
        ensures
            done == old(self)@.admits(index as int),
            final(self)@ == if done is Ok {
                old(self)@.record(index as int, elapsed_nanos, response_view(response))
            } else {
                old(self)@
            },
            final(self)@.wf(),
    {
        proof {
            use_type_invariant(&*self);
        }
        if index >= self.slots.len() {
            return Err(RecordError::UnknownIndex);
        }
        if self.slots[index].is_some() {
            return Err(RecordError::AlreadyRecorded);
        }
        let ending = Ending { elapsed_nanos, outcome: Outcome::from_response(response) };
        self.slots[index] = Some(ending);
        assert(self@.slots =~= old(self)@.record(
            index as int,
            elapsed_nanos,
            response_view(response),
        ).slots);
        Ok(())
    }

    /// Whether every check of the batch has ended.
    pub fn is_complete(&self) -> (yes: bool)
        ensures
            yes == self@.complete(),
    {
        let mut seen: usize = 0;
        while seen < self.slots.len()
            invariant
                seen <= self.slots.len(),
                forall|i: int| 0 <= i < seen ==> (#[trigger] self.slots@[i]) is Some,
            decreases self.slots.len() - seen,
        {
            if self.slots[seen].is_none() {
                assert(self@.slots[seen as int] is None);
                return false;
            }
            seen += 1;
        }
        assert forall|i: int| 0 <= i < self@.slots.len() implies (#[trigger] self@.slots[i]) is Some by {
            assert(self.slots@[i] is Some);
        }
        true
    }

    /// Closes the batch. A complete batch hands out its results, one for each
    /// URL and in the order of the URLs; a batch with a check still running
    /// hands out nothing.
    pub fn finish(self) -> (results: Option<Vec<CheckResult>>)
        ensures
            finished_view(results) == if self@.complete() {
                Some(self@.results())
            } else {
                None
            },
            results matches Some(list) ==> list.len() == self@.urls.len(),
            results matches Some(list) ==> forall|i: int|
                0 <= i < list.len() ==> (#[trigger] list[i])@.url == self@.urls[i],
    {
        proof {
            use_type_invariant(&self);
        }
        if !self.is_complete() {
            return None;
        }
        let ghost all = self@;
        let ghost urls = self.urls@;
        let mut slots = self.slots;
        let mut results: Vec<CheckResult> = Vec::new();
        for url in it: self.urls
            invariant
                it.seq() == urls,
                slots.len() == urls.len(),
                all.slots.len() == urls.len(),
                all.complete(),
                forall|i: int|
                    it.index() <= i < urls.len() ==> #[trigger] slots_view(urls, slots@)[i]
                        == all.slots[i],
                results.len() == it.index(),
                results_view(results@) =~= all.results().take(it.index()),
        {
            let next = results.len();
            let ghost before = slots@;
            assert(slots_view(urls, before)[next as int] == all.slots[next as int]);
            assert(all.slots[next as int] is Some);
            match slots[next].take() {
                Some(ending) => results.push(
                    CheckResult {
                        url,
                        elapsed_nanos: ending.elapsed_nanos,
                        outcome: ending.outcome,
                    },
                ),
                None => {},
            }
            proof {
                assert forall|i: int| next < i < urls.len() implies #[trigger] slots_view(
                    urls,
                    slots@,
                )[i] == all.slots[i] by {
                    assert(slots@[i] == before[i]);
                    assert(slots_view(urls, before)[i] == all.slots[i]);
                }
            }
        }
        assert(all.results().take(results.len() as int) =~= all.results());
        assert forall|i: int| 0 <= i < results.len() implies (#[trigger] results[i])@.url
            == all.urls[i] by {
            assert(results_view(results@)[i] == all.results()[i]);
            assert(slots_view(urls, self.slots@)[i] == all.slots[i]);
        }
        Some(results)
    }
}

/// A batch that has just been opened is well formed.
pub proof fn lemma_start_wf(urls: Seq<Seq<char>>, timeout: u64)
    ensures
        BatchView::start(urls, timeout).wf(),
{
}

/// Taking a result in keeps a batch well formed.
pub proof fn lemma_record_wf(
    batch: BatchView,
    index: int,
    elapsed_nanos: u64,
    response: Result<u16, Seq<char>>,
)
    requires
        batch.wf(),
        batch.admits(index) is Ok,
    ensures
        batch.record(index, elapsed_nanos, response).wf(),
{
}

/// A complete batch has exactly one result for each URL: as many results as
/// URLs, and the i-th result is that of the i-th URL.
pub proof fn lemma_one_result_per_url(batch: BatchView)
    requires
        batch.wf(),
        batch.complete(),
    ensures
        batch.results().len() == batch.urls.len(),
        forall|i: int| 0 <= i < batch.urls.len() ==> (#[trigger] batch.results()[i]).url == batch.urls[i],
        forall|i: int| 0 <= i < batch.urls.len() ==> batch.slots[i] == Some(#[trigger] batch.results()[i]),
{
}

/// A batch without URLs has no request to send, is complete from the start,
/// and its results are the empty list.
pub proof fn lemma_empty_batch(timeout: u64)
    ensures
        BatchView::start(Seq::empty(), timeout).requests() == Seq::<CheckRequestView>::empty(),
        BatchView::start(Seq::empty(), timeout).complete(),
        BatchView::start(Seq::empty(), timeout).results() == Seq::<CheckResultView>::empty(),
{
    let batch = BatchView::start(Seq::empty(), timeout);
    assert(batch.requests() =~= Seq::<CheckRequestView>::empty());
    assert(batch.results() =~= Seq::<CheckResultView>::empty());
}

/// Checks do not touch each other. However the check at `i` ended, in a
/// failure as well as in an answer, the check at `j` is still taken in and
/// gets the result that its own response stands for; the check at `i` keeps
/// its own; and it makes no difference which of the two ended first.
pub proof fn lemma_checks_independent(
    batch: BatchView,
    i: int,
    elapsed_i: u64,
    response_i: Result<u16, Seq<char>>,
    j: int,
    elapsed_j: u64,
    response_j: Result<u16, Seq<char>>,
)
    requires
        batch.wf(),
        i != j,
        batch.admits(i) is Ok,
        batch.admits(j) is Ok,
    ensures
        batch.record(i, elapsed_i, response_i).admits(j) is Ok,
        batch.record(i, elapsed_i, response_i).record(j, elapsed_j, response_j).slots[j] == Some(
            result_of(batch.urls[j], elapsed_j, response_j),
        ),
        batch.record(i, elapsed_i, response_i).record(j, elapsed_j, response_j).slots[i] == Some(
            result_of(batch.urls[i], elapsed_i, response_i),
        ),
        batch.record(i, elapsed_i, response_i).record(j, elapsed_j, response_j) == batch.record(
            j,
            elapsed_j,
            response_j,
        ).record(i, elapsed_i, response_i),
{
    let one = batch.record(i, elapsed_i, response_i).record(j, elapsed_j, response_j);
    let other = batch.record(j, elapsed_j, response_j).record(i, elapsed_i, response_i);
    assert(one.slots =~= other.slots);
}

} // verus!
