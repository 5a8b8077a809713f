//! Scanning a batch of URLs with per-item failure isolation.
//!
//! A batch produces one record for each URL, in the order of the URLs. An
//! item whose dispatch fails becomes a record with the reserved failure
//! label and the error's message; it neither stops the batch nor touches any
//! other item.

use vstd::prelude::*;
use crate::error::{DispatchError, DispatchErrorView};
use crate::record::{failure_view, result_view, RecordView, ResultRecord};

verus! {

/// What one item of a batch becomes: the record of a successful dispatch as
/// it is, or the failure record of `url` for a failed one.
pub open spec fn settled(url: Seq<char>, outcome: Result<RecordView, DispatchErrorView>) -> RecordView {
    match outcome {
        Ok(record) => record,
        Err(error) => failure_view(url, error),
    }
}

/// The records of a batch: item `i` is what the outcome of URL `i` becomes.
pub open spec fn batch_view(
    urls: Seq<Seq<char>>,
    outcomes: Seq<Result<RecordView, DispatchErrorView>>,
) -> Seq<RecordView> {
    Seq::new(urls.len(), |i: int| settled(urls[i], outcomes[i]))
}

/// The models of a sequence of records.
pub open spec fn records_view(records: Seq<ResultRecord>) -> Seq<RecordView> {
    records.map_values(|record: ResultRecord| record@)
}

/// `record` is what some outcome of `classify` on `url` becomes.
pub open spec fn is_settlement<F: Fn(&String) -> Result<ResultRecord, DispatchError>>(
    classify: F,
    url: String,
    record: RecordView,
) -> bool {
    exists|outcome: Result<ResultRecord, DispatchError>|
        call_ensures(classify, (&url,), outcome) && record == settled(url@, result_view(outcome))
}

/// Turns the outcome of one dispatch into the record of its item.
pub fn settle(url: &str, outcome: Result<ResultRecord, DispatchError>) -> (r: ResultRecord)
    ensures
        r@ == settled(url@, result_view(outcome)),
{
    match outcome {
        Ok(record) => record,
        Err(error) => ResultRecord::failure(url, &error),
    }
}

/// Classifies every URL in order with `classify` and returns one record for
/// each, in the same order. The batch never fails and never stops early: a
/// failed item is turned into its failure record.
pub fn scan_many<F: Fn(&String) -> Result<ResultRecord, DispatchError>>(
    urls: &Vec<String>,
    classify: F,
) -> (r: Vec<ResultRecord>)
    requires
        forall|i: int| 0 <= i < urls@.len() ==> call_requires(classify, (&urls@[i],)),
    ensures
        r@.len() == urls@.len(),
        forall|i: int| 0 <= i < urls@.len() ==> is_settlement(classify, urls@[i], #[trigger] r@[i]@),
{
    let mut records: Vec<ResultRecord> = Vec::new();
    let mut i: usize = 0;
    while i < urls.len()
        invariant
            i <= urls@.len(),
            records@.len() == i,
            forall|j: int| 0 <= j < urls@.len() ==> call_requires(classify, (&urls@[j],)),
            forall|j: int| 0 <= j < i ==> is_settlement(classify, urls@[j], #[trigger] records@[j]@),
        decreases urls@.len() - i,
    {
        let outcome = classify(&urls[i]);
        let ghost witness = outcome;
        let record = settle(urls[i].as_str(), outcome);
        assert(is_settlement(classify, urls@[i as int], record@)) by {
            assert(call_ensures(classify, (&urls@[i as int],), witness));
        }
        records.push(record);
        i = i + 1;
    }
    records
}

/// A batch in progress, for callers that dispatch on their own schedule:
/// ask for the pending URL, dispatch it, hand the outcome back, until no URL
/// is pending.
#[derive(Debug)]
pub struct BatchScanner {
    urls: Vec<String>,
    records: Vec<ResultRecord>,
}

impl BatchScanner {
    /// The URLs of the batch.
    pub closed spec fn urls(&self) -> Seq<Seq<char>> {
        self.urls@.map_values(|url: String| url@)
    }

    /// The records settled so far.
    pub closed spec fn records(&self) -> Seq<RecordView> {
        records_view(self.records@)
    }

    /// No more records are settled than there are URLs.
    pub closed spec fn well_formed(&self) -> bool {
        self.records@.len() <= self.urls@.len()
    }

    /// Whether every URL has its record.
    pub open spec fn finished(&self) -> bool {
        self.records().len() == self.urls().len()
    }

    /// Starts a batch over `urls`, with nothing settled.
    pub fn new(urls: Vec<String>) -> (r: BatchScanner)
        ensures
            r.well_formed(),
            r.urls() == urls@.map_values(|url: String| url@),
            r.records() == Seq::<RecordView>::empty(),
    {
        let scanner = BatchScanner { urls, records: Vec::new() };
        assert(scanner.records() =~= Seq::<RecordView>::empty());
        scanner
    }

    /// The URL to dispatch next, or `None` when every URL has its record.
    pub fn pending(&self) -> (r: Option<&String>)
        requires
            self.well_formed(),
        ensures
            r is None <==> self.finished(),
            r is Some ==> r->0@ == self.urls()[self.records().len() as int],
    {
        if self.records.len() < self.urls.len() {
            Some(&self.urls[self.records.len()])
        } else {
            None
        }
    }

    /// Whether every URL has its record.
    pub fn is_finished(&self) -> (r: bool)
        requires
            self.well_formed(),
        ensures
            r == self.finished(),
    {
        self.records.len() >= self.urls.len()
    }

    /// Settles the pending URL with the outcome of its dispatch. When no URL
    /// is pending, nothing changes.
    pub fn settle(&mut self, outcome: Result<ResultRecord, DispatchError>)
        requires
            old(self).well_formed(),
        ensures
            final(self).well_formed(),
            final(self).urls() == old(self).urls(),
            old(self).finished() ==> final(self).records() == old(self).records(),
            !old(self).finished() ==> final(self).records() == old(self).records().push(
                settled(
                    old(self).urls()[old(self).records().len() as int],
                    result_view(outcome),
                ),
            ),
    {
        let at = self.records.len();
        if at < self.urls.len() {
            let record = settle(self.urls[at].as_str(), outcome);
            self.records.push(record);
            assert(self.records() =~= old(self).records().push(record@));
        }
    }

    /// The records settled so far, in the order of their URLs.
    pub fn into_records(self) -> (r: Vec<ResultRecord>)
        ensures
            records_view(r@) == self.records(),
    {
        self.records
    }
}

/// A batch has one record for each URL, and record `i` is what the outcome
/// of URL `i` became: the record of its dispatch, or a failure record that
/// names URL `i` itself.
pub proof fn lemma_batch_keeps_length_and_order(
    urls: Seq<Seq<char>>,
    outcomes: Seq<Result<RecordView, DispatchErrorView>>,
)
    requires
        outcomes.len() == urls.len(),
    ensures
        batch_view(urls, outcomes).len() == urls.len(),
        forall|i: int|
            0 <= i < urls.len() ==> #[trigger] batch_view(urls, outcomes)[i] == settled(
                urls[i],
                outcomes[i],
            ),
        forall|i: int|
            0 <= i < urls.len() && outcomes[i] is Ok ==> #[trigger] batch_view(urls, outcomes)[i]
                == outcomes[i]->Ok_0,
        forall|i: int|
            0 <= i < urls.len() && outcomes[i] is Err ==> (#[trigger] batch_view(
                urls,
                outcomes,
            )[i]).url == urls[i],
{
}

/// Isolation: when two runs of a batch differ in the outcome of one item
/// only, their records differ at most at that item.
pub proof fn lemma_batch_isolation(
    urls: Seq<Seq<char>>,
    first: Seq<Result<RecordView, DispatchErrorView>>,
    second: Seq<Result<RecordView, DispatchErrorView>>,
    item: int,
)
    requires
        first.len() == urls.len(),
        second.len() == urls.len(),
        forall|i: int| 0 <= i < urls.len() && i != item ==> first[i] == second[i],
    ensures
        forall|i: int|
            0 <= i < urls.len() && i != item ==> #[trigger] batch_view(urls, first)[i]
                == batch_view(urls, second)[i],
{
}

/// When no backend answers with the reserved failure label, the records of
/// a batch that carry it are exactly those of the items whose dispatch
/// failed, and they have zero confidence and zero risk.
pub proof fn lemma_only_failed_items_are_marked(
    urls: Seq<Seq<char>>,
    outcomes: Seq<Result<RecordView, DispatchErrorView>>,
)
    requires
        outcomes.len() == urls.len(),
        forall|i: int|
            0 <= i < urls.len() && outcomes[i] is Ok ==> !(#[trigger] outcomes[i])->Ok_0.is_failure(),
    ensures
        forall|i: int|
            0 <= i < urls.len() ==> ((#[trigger] batch_view(urls, outcomes)[i]).is_failure()
                <==> outcomes[i] is Err),
        forall|i: int|
            0 <= i < urls.len() && outcomes[i] is Err ==> {
                &&& (#[trigger] batch_view(urls, outcomes)[i]).confidence_bits == 0
                &&& batch_view(urls, outcomes)[i].risk_score == 0
                &&& batch_view(urls, outcomes)[i].explanation == outcomes[i]->Err_0.message()
            },
{
}

} // verus!
