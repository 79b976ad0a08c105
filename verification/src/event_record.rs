//! Checked reading of event records and their canonical elapsed text.
//!
//! An event record carries the fields of an [`Event`] with its elapsed time
//! written as text. Reading a record admits exactly the events that a progress
//! operation could have emitted in form: a nonzero operation ID, valid
//! attributes and metric metadata, a `Started` event first with zero state, and
//! every other event later in the sequence.

use vstd::prelude::*;
use vstd::string::StringExecFns;

use crate::duration_text::{format_duration, parse_duration, parse_duration_spec, duration_text,
    lemma_duration_text_round_trip};
use crate::error::ConfigurationError;
use crate::error::configuration_error::{configuration_error_subject, configuration_error_text};
use crate::text::{debug_quote, debug_quoted};
use crate::event::{Event, EventView, Phase, snapshot_views};
use crate::metric::{Metric, MetricSnapshot, MetricSnapshotView, MetricView};
use crate::operation_attributes::OperationAttributes;
use crate::progress::DURATION_MAX_NANOS;
use crate::validation::{
    blank_key_error, has_blank_key, metric_views, metrics_error, metrics_valid,
    validate_attributes, validate_metrics,
};

verus! {

/// Why an event record was rejected.
#[derive(Debug, PartialEq, Eq)]
pub enum EventRecordError {
    /// The elapsed text does not denote a duration; the message says why.
    Elapsed(String),
    /// The operation ID is zero.
    ZeroOperationId,
    /// The attributes or metric metadata are not a valid configuration.
    InvalidConfiguration(ConfigurationError),
    /// A `Started` event has a nonzero sequence, elapsed time or count.
    StartedNotInitial,
    /// A later event has sequence zero.
    NonStartedAtZero,
}

/// The identifier a record error writes in quotes, or the empty text for
/// errors that quote none.
pub open spec fn record_error_subject(e: EventRecordError) -> Seq<char> {
    match e {
        EventRecordError::InvalidConfiguration(c) => configuration_error_subject(c),
        _ => Seq::empty(),
    }
}

/// The explanation of a rejected record, given the quoted form of its
/// subject.
pub open spec fn record_error_text(e: EventRecordError, quoted: Seq<char>) -> Seq<char> {
    match e {
        EventRecordError::Elapsed(m) => m@,
        EventRecordError::ZeroOperationId => "operation_id must be nonzero"@,
        EventRecordError::InvalidConfiguration(c) => configuration_error_text(c, quoted),
        EventRecordError::StartedNotInitial => "started event must have sequence 0, zero elapsed, and zero counts"@,
        EventRecordError::NonStartedAtZero => "non-started event must have a positive sequence"@,
    }
}

impl EventRecordError {
    /// Returns the identifier this error quotes, or `""` when it quotes none.
    pub fn subject(&self) -> (s: &str)
        ensures
            s@ == record_error_subject(*self),
    {
        proof {
            reveal_strlit("");
        }
        match self {
            EventRecordError::InvalidConfiguration(c) => c.subject(),
            _ => "",
        }
    }

    /// Explains why the record was rejected, writing its subject as `quoted`.
    pub fn message_with_quoted_id(&self, quoted: &str) -> (m: String)
        ensures
            m@ == record_error_text(*self, quoted@),
    {
        match self {
            EventRecordError::Elapsed(m) => m.clone(),
            EventRecordError::ZeroOperationId => String::from_str("operation_id must be nonzero"),
            EventRecordError::InvalidConfiguration(c) => c.message_with_quoted_id(quoted),
            EventRecordError::StartedNotInitial => String::from_str(
                "started event must have sequence 0, zero elapsed, and zero counts",
            ),
            EventRecordError::NonStartedAtZero => String::from_str(
                "non-started event must have a positive sequence",
            ),
        }
    }

    /// Explains why the record was rejected, with its subject in `Debug` form.
    pub fn message(&self) -> (m: String)
        ensures
            m@ == record_error_text(*self, debug_quoted(record_error_subject(*self))),
    {
        let quoted = debug_quote(self.subject());
        self.message_with_quoted_id(quoted.as_str())
    }
}

/// The metric metadata that a snapshot carries.
pub open spec fn definition_of(s: MetricSnapshotView) -> MetricView {
    MetricView { id: s.id, name: s.name, total: s.total }
}

/// Whether a snapshot carries any nonzero count.
pub open spec fn has_dynamic_counts(s: MetricSnapshotView) -> bool {
    s.completed != 0 || s.active != 0 || s.succeeded != 0 || s.failed != 0 || s.cancelled != 0
}

/// What reading an event record yields: the event, or which check rejects
/// it, in the order the checks run (elapsed text, operation ID, attributes,
/// metric metadata, phase rules). 0 means accepted.
pub open spec fn record_fault(
    operation_id: u64,
    sequence: u64,
    phase: Phase,
    attributes: Map<Seq<char>, Seq<char>>,
    metrics: Seq<MetricSnapshotView>,
    elapsed_text: Seq<char>,
) -> int {
    if parse_duration_spec(elapsed_text) is Err {
        1
    } else if operation_id == 0 {
        2
    } else if has_blank_key(attributes) {
        3
    } else if !metrics_valid(metrics.map_values(|s: MetricSnapshotView| definition_of(s))) {
        4
    } else if phase is Started && (sequence != 0 || parse_duration_spec(elapsed_text)->Ok_0 != 0
        || exists|i: int| 0 <= i < metrics.len() && has_dynamic_counts(#[trigger] metrics[i])) {
        5
    } else if !(phase is Started) && sequence == 0 {
        6
    } else {
        0
    }
}

/// Whether a snapshot carries no work at all: every count is zero.
pub open spec fn snapshot_idle(s: MetricSnapshotView) -> bool {
    &&& s.completed == 0
    &&& s.active == 0
    &&& s.succeeded == 0
    &&& s.failed == 0
    &&& s.cancelled == 0
}

/// An accepted record has a nonzero operation ID; if it is a `Started`
/// record, it is the initial state of its operation (sequence 0, zero elapsed
/// time, every count zero), and any other record comes later in the
/// sequence.
pub proof fn lemma_accepted_records_are_ordered(
    operation_id: u64,
    sequence: u64,
    phase: Phase,
    attributes: Map<Seq<char>, Seq<char>>,
    metrics: Seq<MetricSnapshotView>,
    elapsed_text: Seq<char>,
)
    requires
        record_fault(operation_id, sequence, phase, attributes, metrics, elapsed_text) == 0,
    ensures
        operation_id != 0,
        phase is Started ==> {
            &&& sequence == 0
            &&& parse_duration_spec(elapsed_text) == Ok::<nat, Seq<char>>(0)
            &&& forall|i: int| 0 <= i < metrics.len() ==> snapshot_idle(#[trigger] metrics[i])
        },
        !(phase is Started) ==> sequence != 0,
{
    if phase is Started {
        assert forall|i: int| 0 <= i < metrics.len() implies snapshot_idle(#[trigger] metrics[i]) by {
            assert(!has_dynamic_counts(metrics[i]));
        }
    }
}

/// A `Started` record with a nonzero sequence is never accepted; once its
/// elapsed text, operation ID, attributes and metric metadata pass, it is
/// refused as not initial.
pub proof fn lemma_started_at_nonzero_sequence_refused(
    operation_id: u64,
    sequence: u64,
    attributes: Map<Seq<char>, Seq<char>>,
    metrics: Seq<MetricSnapshotView>,
    elapsed_text: Seq<char>,
)
    requires
        sequence != 0,
    ensures
        record_fault(operation_id, sequence, Phase::Started, attributes, metrics, elapsed_text) != 0,
        parse_duration_spec(elapsed_text) is Ok && operation_id != 0 && !has_blank_key(attributes)
            && metrics_valid(metrics.map_values(|s: MetricSnapshotView| definition_of(s)))
            ==> record_fault(operation_id, sequence, Phase::Started, attributes, metrics, elapsed_text) == 5,
{
    if record_fault(operation_id, sequence, Phase::Started, attributes, metrics, elapsed_text) == 0 {
        lemma_accepted_records_are_ordered(
            operation_id,
            sequence,
            Phase::Started,
            attributes,
            metrics,
            elapsed_text,
        );
    }
}

/// Whether `r` rejects a record for its elapsed text with message `m`.
pub open spec fn elapsed_rejected(r: Result<Event, EventRecordError>, m: Seq<char>) -> bool {
    match r {
        Err(EventRecordError::Elapsed(text)) => text@ == m,
        _ => false,
    }
}

/// Builds the metadata of one snapshot.
fn definition(snapshot: &MetricSnapshot) -> (m: Metric)
    ensures
        m@ == definition_of(snapshot@),
{
    let metric = Metric::new(snapshot.id(), snapshot.name());
    match snapshot.total() {
        Some(total) => metric.total(total),
        None => metric,
    }
}

/// Reads one event record, validating it as a whole.
pub fn read_event_record(
    operation_id: u64,
    sequence: u64,
    phase: Phase,
    attributes: OperationAttributes,
    metrics: Vec<MetricSnapshot>,
    elapsed_text: &str,
) -> (r: Result<Event, EventRecordError>)
    ensures
        ({
            let fault = record_fault(
                operation_id,
                sequence,
                phase,
                attributes@,
                snapshot_views(metrics@),
                elapsed_text@,
            );
            &&& fault == 0 <==> r is Ok
            &&& fault == 0 ==> r->Ok_0@ == (EventView {
                operation_id,
                sequence,
                phase,
                attributes: attributes@,
                metrics: snapshot_views(metrics@),
                elapsed: parse_duration_spec(elapsed_text@)->Ok_0 as u128,
            })
            &&& fault == 1 ==> elapsed_rejected(r, parse_duration_spec(elapsed_text@)->Err_0)
            &&& fault == 2 ==> r == Err::<Event, EventRecordError>(EventRecordError::ZeroOperationId)
            &&& fault == 3 ==> (r matches Err(EventRecordError::InvalidConfiguration(c))
                && blank_key_error(c, attributes@))
            &&& fault == 4 ==> (r matches Err(EventRecordError::InvalidConfiguration(c))
                && metrics_error(
                c,
                snapshot_views(metrics@).map_values(|s: MetricSnapshotView| definition_of(s)),
            ))
            &&& fault == 5 ==> r == Err::<Event, EventRecordError>(EventRecordError::StartedNotInitial)
            &&& fault == 6 ==> r == Err::<Event, EventRecordError>(EventRecordError::NonStartedAtZero)
        }),
        r is Ok ==> operation_id != 0,
        r is Ok && phase is Started ==> {
            &&& sequence == 0
            &&& r->Ok_0@.elapsed == 0
            &&& forall|i: int| 0 <= i < metrics@.len() ==> snapshot_idle(#[trigger] metrics@[i]@)
        },
        r is Ok && !(phase is Started) ==> sequence != 0,
        phase is Started && sequence != 0 ==> r is Err,
        phase is Started && sequence != 0 && parse_duration_spec(elapsed_text@) is Ok && operation_id != 0
            && !has_blank_key(attributes@) && metrics_valid(
            snapshot_views(metrics@).map_values(|s: MetricSnapshotView| definition_of(s)),
        ) ==> r == Err::<Event, EventRecordError>(EventRecordError::StartedNotInitial),
{
    proof {
        let views = snapshot_views(metrics@);
        if record_fault(operation_id, sequence, phase, attributes@, views, elapsed_text@) == 0 {
            lemma_accepted_records_are_ordered(
                operation_id,
                sequence,
                phase,
                attributes@,
                views,
                elapsed_text@,
            );
            if phase is Started {
                assert forall|i: int| 0 <= i < metrics@.len() implies snapshot_idle(
                    #[trigger] metrics@[i]@,
                ) by {
                    assert(snapshot_idle(views[i]));
                }
            }
        }
        if phase is Started && sequence != 0 {
            lemma_started_at_nonzero_sequence_refused(
                operation_id,
                sequence,
                attributes@,
                views,
                elapsed_text@,
            );
        }
    }
    let elapsed = match parse_duration(elapsed_text) {
        Ok(n) => n,
        Err(m) => {
            return Err(EventRecordError::Elapsed(m));
        },
    };
    if operation_id == 0 {
        return Err(EventRecordError::ZeroOperationId);
    }
    if let Err(e) = validate_attributes(&attributes) {
        return Err(EventRecordError::InvalidConfiguration(e));
    }
    let ghost views = snapshot_views(metrics@);
    let n = metrics.len();
    let mut definitions: Vec<Metric> = Vec::new();
    let mut dynamic = false;
    let mut i: usize = 0;
    while i < n
        invariant
            n == metrics@.len(),
            views == snapshot_views(metrics@),
            i <= n,
            definitions@.len() == i,
            forall|j: int| 0 <= j < i ==> (#[trigger] definitions@[j])@ == definition_of(views[j]),
            dynamic == exists|j: int| 0 <= j < i && has_dynamic_counts(#[trigger] views[j]),
        decreases n - i,
    {
        let s = &metrics[i];
        assert(views[i as int] == s@);
        definitions.push(definition(s));
        let counted = s.completed() != 0 || s.active() != 0 || s.succeeded() != 0 || s.failed()
            != 0 || s.cancelled() != 0;
        proof {
            if counted {
                assert(has_dynamic_counts(views[i as int]));
            }
        }
        dynamic = dynamic || counted;
        i = i + 1;
    }
    assert(metric_views(definitions@) =~= views.map_values(
        |s: MetricSnapshotView| definition_of(s),
    ));
    if let Err(e) = validate_metrics(definitions.as_slice()) {
        return Err(EventRecordError::InvalidConfiguration(e));
    }
    match phase {
        Phase::Started => {
            if sequence != 0 || elapsed != 0 || dynamic {
                return Err(EventRecordError::StartedNotInitial);
            }
        },
        _ => {
            if sequence == 0 {
                return Err(EventRecordError::NonStartedAtZero);
            }
        },
    }
    Ok(Event::new(operation_id, sequence, phase, attributes, metrics, elapsed))
}

/// Returns the canonical text of an event's elapsed time.
pub fn elapsed_text(event: &Event) -> (text: String)
    ensures
        text@ == duration_text(event@.elapsed as nat),
{
    format_duration(event.elapsed())
}

/// An accepted record, written again with its canonical elapsed text, is
/// accepted again as the same event: reading and writing records round-trips.
pub proof fn lemma_event_record_round_trip(
    operation_id: u64,
    sequence: u64,
    phase: Phase,
    attributes: Map<Seq<char>, Seq<char>>,
    metrics: Seq<MetricSnapshotView>,
    elapsed_text: Seq<char>,
)
    requires
        record_fault(operation_id, sequence, phase, attributes, metrics, elapsed_text) == 0,
    ensures
        ({
            let n = parse_duration_spec(elapsed_text)->Ok_0;
            &&& n <= DURATION_MAX_NANOS
            &&& parse_duration_spec(duration_text(n)) == Ok::<nat, Seq<char>>(n)
            &&& record_fault(
                operation_id,
                sequence,
                phase,
                attributes,
                metrics,
                duration_text(n),
            ) == 0
        }),
{
    let n = parse_duration_spec(elapsed_text)->Ok_0;
    assert(n <= DURATION_MAX_NANOS) by {
        vstd::arithmetic::div_mod::lemma_fundamental_div_mod(n as int, 1_000_000_000);
    }
    lemma_duration_text_round_trip(n);
}

} // verus!
