//! The entry of a queue-triggered invocation: a batch of records, each a
//! unit of work of its own. Every record gets its own context and its own
//! span, and a record that cannot be read fails alone.

use vstd::prelude::*;
use crate::adapter::{correlation_mapping, from_correlation_id};
use crate::ambient::{fresh_span_id, fresh_trace_id, now_millis};
use crate::carrier::Text;
use crate::codec::{extract, extracted};
use crate::context::TraceContext;
use crate::envelope::{log_text, parsed, result_view, Envelope, EnvelopeView, RecordError};
use crate::span::{started, ClosedSpan, ClosedSpanView, Span, SpanKind};

verus! {

/// The name of the span of one record.
pub const RECORD_SPAN: &'static str = "Processing Record";

/// A record as the queue hands it over: its identifier, and its body if it
/// has one.
#[derive(Debug, Clone, PartialEq, Eq)]
pub struct QueueRecord {
    pub message_id: String,
    pub body: Option<String>,
}

/// A record that was processed: the envelope it held, the span of the work,
/// closed, and the line that the work logged.
pub struct Processed {
    pub envelope: Envelope,
    pub span: ClosedSpan,
    pub line: String,
}

/// What became of one record.
pub enum RecordOutcome {
    Processed { message_id: String, work: Processed },
    Failed { message_id: String, error: RecordError },
}

/// What became of a batch: one outcome for each record, in the order of the
/// records.
pub struct BatchReport {
    pub outcomes: Vec<RecordOutcome>,
}

/// What a record reads as: its body as an envelope, or why it has none.
pub open spec fn readable(record: QueueRecord) -> Result<EnvelopeView, RecordError> {
    match record.body {
        Some(body) => parsed(body@),
        None => Err(RecordError::NoBody),
    }
}

/// The context that an envelope carries in its correlation field.
pub open spec fn carried(envelope: EnvelopeView) -> Option<TraceContext> {
    extracted(correlation_mapping(envelope.correlation_id))
}

/// The span of the work on `envelope`, with the given drawn identifiers and
/// times.
pub open spec fn record_span(
    envelope: EnvelopeView,
    trace_id: u128,
    span_id: u64,
    started_at: i64,
    ended_at: i64,
) -> ClosedSpanView {
    ClosedSpanView {
        span: started(
            RECORD_SPAN@,
            SpanKind::Server,
            carried(envelope),
            trace_id,
            span_id,
            started_at,
        ),
        end_time: ended_at,
    }
}

/// Whether `work` is the work on `envelope`, whatever identifiers and times
/// it drew.
pub open spec fn worked(envelope: EnvelopeView, work: Processed) -> bool {
    &&& work.envelope@ == envelope
    &&& work.line@ == log_text(envelope)
    &&& work.span@ == record_span(
        envelope,
        work.span.context.trace_id,
        work.span.context.span_id,
        work.span.start_time,
        work.span.end_time,
    )
}

/// Whether `outcome` is what becomes of `record`: failed with the reason for
/// which it cannot be read, or processed as the envelope it reads as.
pub open spec fn settles(record: QueueRecord, outcome: RecordOutcome) -> bool {
    match readable(record) {
        Ok(envelope) => {
            &&& outcome matches RecordOutcome::Processed { message_id, work }
            &&& message_id@ == record.message_id@
            &&& worked(envelope, work)
        },
        Err(reason) => {
            &&& outcome matches RecordOutcome::Failed { message_id, error }
            &&& message_id@ == record.message_id@
            &&& error == reason
        },
    }
}

/// The identifiers of the records that failed, in the order of the batch.
pub open spec fn failed_ids(outcomes: Seq<RecordOutcome>) -> Seq<Text>
    decreases outcomes.len(),
{
    if outcomes.len() == 0 {
        Seq::empty()
    } else {
        match outcomes.last() {
            RecordOutcome::Failed { message_id, .. } => failed_ids(outcomes.drop_last()).push(
                message_id@,
            ),
            RecordOutcome::Processed { .. } => failed_ids(outcomes.drop_last()),
        }
    }
}

/// How many records were processed.
pub open spec fn processed_count(outcomes: Seq<RecordOutcome>) -> nat
    decreases outcomes.len(),
{
    if outcomes.len() == 0 {
        0
    } else if outcomes.last() is Processed {
        processed_count(outcomes.drop_last()) + 1
    } else {
        processed_count(outcomes.drop_last())
    }
}

/// The texts of a list of strings.
pub open spec fn texts(strings: Seq<String>) -> Seq<Text> {
    strings.map_values(|s: String| s@)
}

/// Reads the envelope of a record.
pub fn read_record(record: &QueueRecord) -> (r: Result<Envelope, RecordError>)
    ensures
        result_view(r) == readable(*record),
{
    match &record.body {
        Some(body) => Envelope::from_json(body.as_str()),
        None => Err(RecordError::NoBody),
    }
}

/// The parent of the work on an envelope: the context in its correlation
/// field. An empty field gives none.
pub fn parent_of_envelope(envelope: &Envelope) -> (parent: Option<TraceContext>)
    ensures
        parent == carried(envelope@),
        envelope@.correlation_id.len() == 0 ==> parent is None,
{
    let carrier = from_correlation_id(envelope.correlation_id());
    extract(&carrier)
}

/// The work on one envelope, with the given drawn identifiers and times: a
/// server span under the context that the envelope carries, and the line
/// that describes the envelope.
pub fn process_at(envelope: Envelope, trace_id: u128, span_id: u64, started_at: i64, ended_at: i64)
    -> (work: Processed)
    ensures
        work.envelope@ == envelope@,
        work.line@ == log_text(envelope@),
        work.span@ == record_span(envelope@, trace_id, span_id, started_at, ended_at),
{
    let parent = parent_of_envelope(&envelope);
    let span = Span::start_at(RECORD_SPAN, SpanKind::Server, parent, trace_id, span_id, started_at);
    let line = envelope.to_log_line();
    let span = span.close_at(ended_at);
    Processed { envelope, span, line }
}

/// The work on one envelope, now.
pub fn process(envelope: Envelope) -> (work: Processed)
    ensures
        worked(envelope@, work),
{
    let trace_id = fresh_trace_id();
    let span_id = fresh_span_id();
    let started_at = now_millis();
    let ended_at = now_millis();
    process_at(envelope, trace_id, span_id, started_at, ended_at)
}

/// Settles one record.
pub fn settle(record: &QueueRecord) -> (outcome: RecordOutcome)
    ensures
        settles(*record, outcome),
{
    match read_record(record) {
        Ok(envelope) => RecordOutcome::Processed {
            message_id: record.message_id.clone(),
            work: process(envelope),
        },
        Err(error) => RecordOutcome::Failed { message_id: record.message_id.clone(), error },
    }
}

/// Settles every record of a batch, each on its own: a record that cannot be
/// read fails, and the others are still processed.
pub fn handler(records: &Vec<QueueRecord>) -> (report: BatchReport)
    ensures
        report.outcomes@.len() == records@.len(),
        forall|i: int|
            0 <= i < records@.len() ==> settles(records@[i], #[trigger] report.outcomes@[i]),
{
    let mut outcomes: Vec<RecordOutcome> = Vec::new();
    let mut i: usize = 0;
    while i < records.len()
        invariant
            i <= records.len(),
            outcomes@.len() == i,
            forall|j: int| 0 <= j < i ==> settles(records@[j], #[trigger] outcomes@[j]),
        decreases records.len() - i,
    {
        outcomes.push(settle(&records[i]));
        i += 1;
    }
    BatchReport { outcomes }
}

impl BatchReport {
    /// The identifiers of the records that failed, for redelivery.
    pub fn failures(&self) -> (ids: Vec<String>)
        ensures
            texts(ids@) == failed_ids(self.outcomes@),
    {
        let mut ids: Vec<String> = Vec::new();
        let mut i: usize = 0;
        while i < self.outcomes.len()
            invariant
                i <= self.outcomes.len(),
                texts(ids@) == failed_ids(self.outcomes@.take(i as int)),
            decreases self.outcomes.len() - i,
        {
            proof {
                assert(self.outcomes@.take(i + 1).drop_last() =~= self.outcomes@.take(i as int));
            }
            match &self.outcomes[i] {
                RecordOutcome::Failed { message_id, .. } => {
                    let ghost before = ids@;
                    ids.push(message_id.clone());
                    proof {
                        assert(texts(ids@) =~= texts(before).push(message_id@));
                    }
                },
                RecordOutcome::Processed { .. } => {},
            }
            i += 1;
        }
        proof {
            assert(self.outcomes@.take(self.outcomes.len() as int) =~= self.outcomes@);
        }
        ids
    }
}

/// Batch isolation: where exactly one record of a batch cannot be read, the
/// settled batch names exactly that record as failed, and every other
/// record was processed.
pub proof fn law_batch_isolation(records: Seq<QueueRecord>, outcomes: Seq<RecordOutcome>, k: int)
    requires
        0 <= k < records.len(),
        outcomes.len() == records.len(),
        forall|i: int| 0 <= i < records.len() ==> settles(records[i], #[trigger] outcomes[i]),
        readable(records[k]) is Err,
        forall|i: int| 0 <= i < records.len() && i != k ==> readable(#[trigger] records[i]) is Ok,
    ensures
        failed_ids(outcomes) == seq![records[k].message_id@],
        processed_count(outcomes) == records.len() - 1,
        forall|i: int| 0 <= i < records.len() && i != k ==> (#[trigger] outcomes[i]) is Processed,
{
    lemma_isolated_prefix(records, outcomes, k, records.len() as int);
    assert(outcomes.take(records.len() as int) =~= outcomes);
    assert forall|i: int| 0 <= i < records.len() && i != k implies (#[trigger] outcomes[i])
        is Processed by {
        assert(settles(records[i], outcomes[i]));
        assert(readable(records[i]) is Ok);
    }
}

/// The first `n` outcomes of a batch with one unreadable record, `k`: none
/// failed before `k`, and only `k` after it.
proof fn lemma_isolated_prefix(
    records: Seq<QueueRecord>,
    outcomes: Seq<RecordOutcome>,
    k: int,
    n: int,
)
    requires
        0 <= k < records.len(),
        0 <= n <= records.len(),
        outcomes.len() == records.len(),
        forall|i: int| 0 <= i < records.len() ==> settles(records[i], #[trigger] outcomes[i]),
        readable(records[k]) is Err,
        forall|i: int| 0 <= i < records.len() && i != k ==> readable(#[trigger] records[i]) is Ok,
    ensures
        n <= k ==> failed_ids(outcomes.take(n)) == Seq::<Text>::empty() && processed_count(
            outcomes.take(n),
        ) == n,
        n > k ==> failed_ids(outcomes.take(n)) == seq![records[k].message_id@] && processed_count(
            outcomes.take(n),
        ) == n - 1,
    decreases n,
{
    if n > 0 {
        lemma_isolated_prefix(records, outcomes, k, n - 1);
        let prefix = outcomes.take(n);
        assert(prefix.drop_last() =~= outcomes.take(n - 1));
        assert(prefix.last() == outcomes[n - 1]);
        assert(settles(records[n - 1], outcomes[n - 1]));
        if n - 1 == k {
            assert(failed_ids(prefix) =~= seq![records[k].message_id@]);
        } else {
            assert(readable(records[n - 1]) is Ok);
        }
    }
}

} // verus!
