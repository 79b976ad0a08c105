//! Metric configuration, dynamic metric counts and their transitions.

use vstd::prelude::*;

use crate::error::{MetricError, MetricTransition, ValidationError};
use crate::text::{is_blank, is_blank_text};

verus! {

/// Abstract content of a [`Metric`].
pub struct MetricView {
    /// Machine-readable identifier.
    pub id: Seq<char>,
    /// Human-readable name.
    pub name: Seq<char>,
    /// Optional configured total.
    pub total: Option<u64>,
}

/// Stable metadata for one metric in a progress operation.
#[derive(Clone, Debug, PartialEq, Eq)]
pub struct Metric {
    /// Machine-readable identifier.
    id: String,
    /// Human-readable name.
    name: String,
    /// Optional configured total.
    total: Option<u64>,
}

impl View for Metric {
    type V = MetricView;

    closed spec fn view(&self) -> MetricView {
        MetricView { id: self.id@, name: self.name@, total: self.total }
    }
}

impl Metric {
    /// Creates metric metadata without a known total.
    ///
    /// The ID and name are validated when the enclosing progress operation is
    /// started, so this constructor never fails.
    pub fn new(id: &str, name: &str) -> (metric: Self)
        ensures
            metric@.id == id@,
            metric@.name == name@,
            metric@.total is None,
    {
        Metric { id: id.to_owned(), name: name.to_owned(), total: None }
    }

    /// Records the total work for this metric.
    pub fn total(self, total: u64) -> (metric: Self)
        ensures
            metric@.id == self@.id,
            metric@.name == self@.name,
            metric@.total == Some(total),
    {
        Metric { id: self.id, name: self.name, total: Some(total) }
    }

    /// Returns the metric's stable ID.
    pub fn id(&self) -> (id: &str)
        ensures
            id@ == self@.id,
    {
        self.id.as_str()
    }

    /// Returns the metric's display name.
    pub fn name(&self) -> (name: &str)
        ensures
            name@ == self@.name,
    {
        self.name.as_str()
    }

    /// Returns the configured total, if it is known.
    pub fn configured_total(&self) -> (total: Option<u64>)
        ensures
            total == self@.total,
    {
        self.total
    }

    /// Returns an owned copy of this metric.
    pub fn duplicate(&self) -> (m: Self)
        ensures
            m@ == self@,
    {
        Metric { id: self.id.clone(), name: self.name.clone(), total: self.total }
    }

    /// Returns an owned copy of the metric's stable ID.
    pub(crate) fn id_string(&self) -> (id: String)
        ensures
            id@ == self@.id,
    {
        self.id.clone()
    }
}

/// Direction in which a metric state transition moves work.
#[derive(Clone, Copy, Debug, PartialEq, Eq, Structural)]
pub enum Direction {
    /// Moves work from the transition source to its target.
    Forward,
    /// Moves work from the transition target back to its source.
    Rollback,
}

/// Dynamic counts of one metric.
///
/// Work that has not started is not counted. Started work is active until it
/// moves to one of the four terminal states.
#[derive(Clone, Copy, Debug, PartialEq, Eq, Structural)]
pub struct MetricCounts {
    /// Work that has started but is not terminal.
    pub active: u64,
    /// Terminal work without explicit success, failure, or cancellation.
    pub completed_unclassified: u64,
    /// Terminal work classified as successful.
    pub succeeded: u64,
    /// Terminal work classified as failed.
    pub failed: u64,
    /// Terminal work classified as cancelled.
    pub cancelled: u64,
}

/// Outcome of one requested transition on a count set, stated over values.
pub enum TransitionVerdict {
    /// The transition is admitted and yields these counts.
    Applied(MetricCounts),
    /// The source state holds less work than requested.
    Insufficient(u64),
    /// Some count or sum would not fit in 64 bits.
    Overflow,
    /// Occupied work would exceed the total: the total and the attempted value.
    OverTotal(u64, u64),
}

/// Sum of the four terminal counts.
pub open spec fn completed_of(c: MetricCounts) -> int {
    c.completed_unclassified + c.succeeded + c.failed + c.cancelled
}

/// Active plus completed work.
pub open spec fn occupied_of(c: MetricCounts) -> int {
    completed_of(c) + c.active
}

/// Whether counts respect the limits an operation maintains: every sum fits
/// in 64 bits and a known total bounds the occupied work.
pub open spec fn counts_within(c: MetricCounts, total: Option<u64>) -> bool {
    &&& occupied_of(c) <= u64::MAX
    &&& (total matches Some(t) ==> occupied_of(c) <= t)
}

/// The terminal count that a non-start transition moves work into.
pub open spec fn terminal_of(c: MetricCounts, t: MetricTransition) -> u64 {
    match t {
        MetricTransition::Start => c.active,
        MetricTransition::Complete => c.completed_unclassified,
        MetricTransition::Succeed => c.succeeded,
        MetricTransition::Fail => c.failed,
        MetricTransition::Cancel => c.cancelled,
    }
}

/// Replaces the terminal count selected by `t`.
pub open spec fn with_terminal(c: MetricCounts, t: MetricTransition, v: u64) -> MetricCounts {
    match t {
        MetricTransition::Start => MetricCounts { active: v, ..c },
        MetricTransition::Complete => MetricCounts { completed_unclassified: v, ..c },
        MetricTransition::Succeed => MetricCounts { succeeded: v, ..c },
        MetricTransition::Fail => MetricCounts { failed: v, ..c },
        MetricTransition::Cancel => MetricCounts { cancelled: v, ..c },
    }
}

/// Whether the transition removes work from some counted state.
pub open spec fn has_source(t: MetricTransition, d: Direction) -> bool {
    !(t is Start && d is Forward)
}

/// The counted state that a transition removes work from.
pub open spec fn source_of(c: MetricCounts, t: MetricTransition, d: Direction) -> u64 {
    if d is Forward || t is Start {
        c.active
    } else {
        terminal_of(c, t)
    }
}

/// Whether the transition adds work to some counted state.
pub open spec fn has_target(t: MetricTransition, d: Direction) -> bool {
    !(t is Start && d is Rollback)
}

/// The counted state that a transition adds work to.
pub open spec fn target_of(c: MetricCounts, t: MetricTransition, d: Direction) -> u64 {
    if d is Rollback || t is Start {
        c.active
    } else {
        terminal_of(c, t)
    }
}

/// Counts after moving `n` work items, when source and target admit it.
pub open spec fn moved(c: MetricCounts, t: MetricTransition, d: Direction, n: u64) -> MetricCounts {
    match (t, d) {
        (MetricTransition::Start, Direction::Forward) => MetricCounts {
            active: (c.active + n) as u64,
            ..c
        },
        (MetricTransition::Start, Direction::Rollback) => MetricCounts {
            active: (c.active - n) as u64,
            ..c
        },
        (_, Direction::Forward) => with_terminal(
            MetricCounts { active: (c.active - n) as u64, ..c },
            t,
            (terminal_of(c, t) + n) as u64,
        ),
        (_, Direction::Rollback) => with_terminal(
            MetricCounts { active: (c.active + n) as u64, ..c },
            t,
            (terminal_of(c, t) - n) as u64,
        ),
    }
}

/// What moving `n` items along `t` in direction `d` does to `c` under `total`.
pub open spec fn transition_verdict(
    c: MetricCounts,
    t: MetricTransition,
    d: Direction,
    n: u64,
    total: Option<u64>,
) -> TransitionVerdict {
    if has_source(t, d) && source_of(c, t, d) < n {
        TransitionVerdict::Insufficient(source_of(c, t, d))
    } else if has_target(t, d) && target_of(c, t, d) + n > u64::MAX {
        TransitionVerdict::Overflow
    } else if occupied_of(moved(c, t, d, n)) > u64::MAX {
        TransitionVerdict::Overflow
    } else if total is Some && occupied_of(moved(c, t, d, n)) > total->0 {
        TransitionVerdict::OverTotal(total->0, occupied_of(moved(c, t, d, n)) as u64)
    } else {
        TransitionVerdict::Applied(moved(c, t, d, n))
    }
}

/// Whether `e` is the metric error that `verdict` calls for, for `metric_id`.
pub open spec fn error_matches_verdict(
    e: MetricError,
    verdict: TransitionVerdict,
    metric_id: Seq<char>,
    t: MetricTransition,
    n: u64,
) -> bool {
    match verdict {
        TransitionVerdict::Applied(_) => false,
        TransitionVerdict::Insufficient(available) => e.is_insufficient_for(
            metric_id,
            t,
            n,
            available,
        ),
        TransitionVerdict::Overflow => e.is_overflow_for(metric_id),
        TransitionVerdict::OverTotal(total, attempted) => e.is_total_exceeded_for(
            metric_id,
            total,
            attempted as int,
        ),
    }
}

/// Builds the overflow error for one metric.
fn overflow_error(metric_id: &str) -> (e: MetricError)
    ensures
        e.is_overflow_for(metric_id@),
{
    MetricError::CountOverflow { metric_id: metric_id.to_owned() }
}

/// Moves an amount between active work and an optional terminal state.
fn move_count(
    active: u64,
    terminal: Option<u64>,
    amount: u64,
    direction: Direction,
    transition: MetricTransition,
    metric_id: &str,
) -> (r: Result<(u64, Option<u64>), MetricError>)
    ensures
        terminal is None ==> match r {
            Ok((a, term)) => term is None && match direction {
                Direction::Forward => a == active + amount,
                Direction::Rollback => a == active - amount,
            },
            Err(e) => match direction {
                Direction::Forward => active + amount > u64::MAX && e.is_overflow_for(metric_id@),
                Direction::Rollback => active < amount && e.is_insufficient_for(
                    metric_id@,
                    transition,
                    amount,
                    active,
                ),
            },
        },
        terminal matches Some(term) ==> match r {
            Ok((a, tt)) => tt is Some && match direction {
                Direction::Forward => active >= amount && term + amount <= u64::MAX && a == active
                    - amount && tt->0 == term + amount,
                Direction::Rollback => term >= amount && active + amount <= u64::MAX && a == active
                    + amount && tt->0 == term - amount,
            },
            Err(e) => match direction {
                Direction::Forward => if active < amount {
                    e.is_insufficient_for(metric_id@, transition, amount, active)
                } else {
                    term + amount > u64::MAX && e.is_overflow_for(metric_id@)
                },
                Direction::Rollback => if term < amount {
                    e.is_insufficient_for(metric_id@, transition, amount, term)
                } else {
                    active + amount > u64::MAX && e.is_overflow_for(metric_id@)
                },
            },
        },
{
    match direction {
        Direction::Rollback => {
            match terminal {
                Some(term) => {
                    let available = term;
                    let next_terminal = match term.checked_sub(amount) {
                        Some(v) => v,
                        None => {
                            return Err(
                                MetricError::InsufficientCount {
                                    metric_id: metric_id.to_owned(),
                                    transition,
                                    requested: amount,
                                    available,
                                },
                            );
                        },
                    };
                    let next_active = match active.checked_add(amount) {
                        Some(v) => v,
                        None => {
                            return Err(overflow_error(metric_id));
                        },
                    };
                    Ok((next_active, Some(next_terminal)))
                },
                None => {
                    let available = active;
                    match active.checked_sub(amount) {
                        Some(v) => Ok((v, None)),
                        None => Err(
                            MetricError::InsufficientCount {
                                metric_id: metric_id.to_owned(),
                                transition,
                                requested: amount,
                                available,
                            },
                        ),
                    }
                },
            }
        },
        Direction::Forward => {
            match terminal {
                Some(term) => {
                    let available = active;
                    let next_active = match active.checked_sub(amount) {
                        Some(v) => v,
                        None => {
                            return Err(
                                MetricError::InsufficientCount {
                                    metric_id: metric_id.to_owned(),
                                    transition,
                                    requested: amount,
                                    available,
                                },
                            );
                        },
                    };
                    let next_terminal = match term.checked_add(amount) {
                        Some(v) => v,
                        None => {
                            return Err(overflow_error(metric_id));
                        },
                    };
                    Ok((next_active, Some(next_terminal)))
                },
                None => {
                    match active.checked_add(amount) {
                        Some(v) => Ok((v, None)),
                        None => Err(overflow_error(metric_id)),
                    }
                },
            }
        },
    }
}

impl MetricCounts {
    /// Creates zeroed counts.
    pub fn zero() -> (c: Self)
        ensures
            c.active == 0,
            c.completed_unclassified == 0,
            c.succeeded == 0,
            c.failed == 0,
            c.cancelled == 0,
    {
        MetricCounts { active: 0, completed_unclassified: 0, succeeded: 0, failed: 0, cancelled: 0 }
    }

    /// Returns the completed count (the four terminal counts summed) with
    /// checked arithmetic.
    pub fn completed(self, metric_id: &str) -> (r: Result<u64, MetricError>)
        ensures
            completed_of(self) <= u64::MAX ==> r == Ok::<u64, MetricError>(completed_of(self) as u64),
            completed_of(self) > u64::MAX ==> r is Err && r->Err_0.is_overflow_for(metric_id@),
    {
        let a = match self.completed_unclassified.checked_add(self.succeeded) {
            Some(v) => v,
            None => {
                return Err(overflow_error(metric_id));
            },
        };
        let b = match a.checked_add(self.failed) {
            Some(v) => v,
            None => {
                return Err(overflow_error(metric_id));
            },
        };
        match b.checked_add(self.cancelled) {
            Some(v) => Ok(v),
            None => Err(overflow_error(metric_id)),
        }
    }

    /// Returns active plus completed work with checked arithmetic.
    pub fn occupied(self, metric_id: &str) -> (r: Result<u64, MetricError>)
        ensures
            occupied_of(self) <= u64::MAX ==> r == Ok::<u64, MetricError>(occupied_of(self) as u64),
            occupied_of(self) > u64::MAX ==> r is Err && r->Err_0.is_overflow_for(metric_id@),
    {
        let completed = self.completed(metric_id)?;
        match completed.checked_add(self.active) {
            Some(v) => Ok(v),
            None => Err(overflow_error(metric_id)),
        }
    }

    /// Validates the aggregate conservation invariants for one pending state.
    pub fn validate(self, metric_id: &str, total: Option<u64>) -> (r: Result<(), MetricError>)
        ensures
            r is Ok <==> counts_within(self, total),
            occupied_of(self) > u64::MAX ==> r is Err && r->Err_0.is_overflow_for(metric_id@),
            occupied_of(self) <= u64::MAX && total is Some && occupied_of(self) > total->0 ==> r
                is Err && r->Err_0.is_total_exceeded_for(metric_id@, total->0, occupied_of(self)),
    {
        let occupied = self.occupied(metric_id)?;
        if let Some(total) = total {
            if occupied > total {
                return Err(
                    MetricError::TotalExceeded {
                        metric_id: metric_id.to_owned(),
                        total,
                        attempted: occupied,
                    },
                );
            }
        }
        Ok(())
    }

    /// Returns the terminal count that `transition` moves work into.
    fn terminal(self, transition: MetricTransition) -> (v: u64)
        ensures
            v == terminal_of(self, transition),
    {
        match transition {
            MetricTransition::Start => self.active,
            MetricTransition::Complete => self.completed_unclassified,
            MetricTransition::Succeed => self.succeeded,
            MetricTransition::Fail => self.failed,
            MetricTransition::Cancel => self.cancelled,
        }
    }

    /// Applies a whole delta at once, as [`delta_verdict`] describes: the
    /// resulting counts, or the error for the first check that rejects it.
    pub fn apply_delta(
        self,
        delta: MetricDelta,
        metric_id: &str,
        total: Option<u64>,
    ) -> (r: Result<MetricCounts, MetricError>)
        ensures
            match delta_verdict(self, delta, total) {
                TransitionVerdict::Applied(next) => r == Ok::<MetricCounts, MetricError>(next),
                _ => r is Err && delta_error_matches(r->Err_0, self, delta, total, metric_id@),
            },
    {
        let terminal = match delta.unclassified.checked_add(delta.succeeded) {
            Some(a) => match a.checked_add(delta.failed) {
                Some(b) => match b.checked_add(delta.cancelled) {
                    Some(c) => c,
                    None => {
                        return Err(overflow_error(metric_id));
                    },
                },
                None => {
                    return Err(overflow_error(metric_id));
                },
            },
            None => {
                return Err(overflow_error(metric_id));
            },
        };
        let available = match self.active.checked_add(delta.started) {
            Some(v) => v,
            None => {
                return Err(overflow_error(metric_id));
            },
        };
        if terminal > available {
            return Err(
                MetricError::InsufficientCount {
                    metric_id: metric_id.to_owned(),
                    transition: MetricTransition::Complete,
                    requested: terminal,
                    available,
                },
            );
        }
        let unclassified = match self.completed_unclassified.checked_add(delta.unclassified) {
            Some(v) => v,
            None => {
                return Err(overflow_error(metric_id));
            },
        };
        let succeeded = match self.succeeded.checked_add(delta.succeeded) {
            Some(v) => v,
            None => {
                return Err(overflow_error(metric_id));
            },
        };
        let failed = match self.failed.checked_add(delta.failed) {
            Some(v) => v,
            None => {
                return Err(overflow_error(metric_id));
            },
        };
        let cancelled = match self.cancelled.checked_add(delta.cancelled) {
            Some(v) => v,
            None => {
                return Err(overflow_error(metric_id));
            },
        };
        let next = MetricCounts {
            active: available - terminal,
            completed_unclassified: unclassified,
            succeeded,
            failed,
            cancelled,
        };
        let completed = match unclassified.checked_add(succeeded) {
            Some(a) => match a.checked_add(failed) {
                Some(b) => match b.checked_add(cancelled) {
                    Some(c) => c,
                    None => {
                        return Err(overflow_error(metric_id));
                    },
                },
                None => {
                    return Err(overflow_error(metric_id));
                },
            },
            None => {
                return Err(overflow_error(metric_id));
            },
        };
        let occupied = match completed.checked_add(next.active) {
            Some(v) => v,
            None => {
                return Err(overflow_error(metric_id));
            },
        };
        if let Some(t) = total {
            if occupied > t {
                return Err(
                    MetricError::TotalExceeded {
                        metric_id: metric_id.to_owned(),
                        total: t,
                        attempted: occupied,
                    },
                );
            }
        }
        Ok(next)
    }

    /// Moves `count` work items along `transition` in `direction` and
    /// validates the result against `total`.
    ///
    /// `Start` moves work between the not-started and active states; every
    /// other transition moves work between the active state and its terminal
    /// state. A rejected transition leaves `self` untouched.
    pub fn apply(
        self,
        transition: MetricTransition,
        count: u64,
        direction: Direction,
        metric_id: &str,
        total: Option<u64>,
    ) -> (r: Result<MetricCounts, MetricError>)
        ensures
            match transition_verdict(self, transition, direction, count, total) {
                TransitionVerdict::Applied(next) => r == Ok::<MetricCounts, MetricError>(next),
                verdict => r is Err && error_matches_verdict(
                    r->Err_0,
                    verdict,
                    metric_id@,
                    transition,
                    count,
                ),
            },
    {
        let mut next = self;
        match transition {
            MetricTransition::Start => {
                let (a, _) = move_count(next.active, None, count, direction, transition, metric_id)?;
                next.active = a;
            },
            _ => {
                let (a, term) = move_count(
                    next.active,
                    Some(self.terminal(transition)),
                    count,
                    direction,
                    transition,
                    metric_id,
                )?;
                let term = match term {
                    Some(v) => v,
                    None => self.terminal(transition),
                };
                next.active = a;
                match transition {
                    MetricTransition::Complete => {
                        next.completed_unclassified = term;
                    },
                    MetricTransition::Succeed => {
                        next.succeeded = term;
                    },
                    MetricTransition::Fail => {
                        next.failed = term;
                    },
                    _ => {
                        next.cancelled = term;
                    },
                }
            },
        }
        assert(next == moved(self, transition, direction, count));
        next.validate(metric_id, total)?;
        Ok(next)
    }
}

/// Abstract content of a [`MetricSnapshot`].
pub struct MetricSnapshotView {
    /// Machine-readable metric ID.
    pub id: Seq<char>,
    /// Human-readable metric name.
    pub name: Seq<char>,
    /// Configured total, if known.
    pub total: Option<u64>,
    /// Completed count.
    pub completed: u64,
    /// Active count.
    pub active: u64,
    /// Succeeded count.
    pub succeeded: u64,
    /// Failed count.
    pub failed: u64,
    /// Cancelled count.
    pub cancelled: u64,
}

/// Work moved into each state by one combined update of a metric.
///
/// `started` work enters the active state; each terminal amount leaves the
/// active state for its terminal state. The whole delta is admitted or
/// rejected at once.
#[derive(Clone, Copy, Debug, PartialEq, Eq, Structural)]
pub struct MetricDelta {
    /// Work that starts.
    pub started: u64,
    /// Work that completes without an explicit outcome.
    pub unclassified: u64,
    /// Work that succeeds.
    pub succeeded: u64,
    /// Work that fails.
    pub failed: u64,
    /// Work that is cancelled.
    pub cancelled: u64,
}

impl MetricDelta {
    /// The delta that moves nothing.
    pub open spec fn default_spec() -> MetricDelta {
        MetricDelta { started: 0, unclassified: 0, succeeded: 0, failed: 0, cancelled: 0 }
    }

    /// Creates a delta that moves nothing.
    pub fn new() -> (d: Self)
        ensures
            d == (MetricDelta { started: 0, unclassified: 0, succeeded: 0, failed: 0, cancelled: 0 }),
    {
        MetricDelta { started: 0, unclassified: 0, succeeded: 0, failed: 0, cancelled: 0 }
    }

    /// Sets the work that starts.
    pub fn started(self, count: u64) -> (d: Self)
        ensures
            d == (MetricDelta { started: count, ..self }),
    {
        MetricDelta { started: count, ..self }
    }

    /// Sets the work that completes without an explicit outcome.
    pub fn unclassified(self, count: u64) -> (d: Self)
        ensures
            d == (MetricDelta { unclassified: count, ..self }),
    {
        MetricDelta { unclassified: count, ..self }
    }

    /// Sets the work that succeeds.
    pub fn succeeded(self, count: u64) -> (d: Self)
        ensures
            d == (MetricDelta { succeeded: count, ..self }),
    {
        MetricDelta { succeeded: count, ..self }
    }

    /// Sets the work that fails.
    pub fn failed(self, count: u64) -> (d: Self)
        ensures
            d == (MetricDelta { failed: count, ..self }),
    {
        MetricDelta { failed: count, ..self }
    }

    /// Sets the work that is cancelled.
    pub fn cancelled(self, count: u64) -> (d: Self)
        ensures
            d == (MetricDelta { cancelled: count, ..self }),
    {
        MetricDelta { cancelled: count, ..self }
    }
}

impl Default for MetricDelta {
    /// Creates a delta that moves nothing.
    fn default() -> (d: Self)
        ensures
            d == MetricDelta::default_spec(),
    {
        MetricDelta::new()
    }
}

/// The terminal work a delta moves out of the active state.
pub open spec fn delta_terminal(d: MetricDelta) -> int {
    d.unclassified + d.succeeded + d.failed + d.cancelled
}

/// What a delta does to `c` under `total`, checking in this order: terminal
/// amounts or available active work that overflow; more terminal work than
/// is active, reported with the active work available; a resulting count or
/// sum that overflows; occupied work above the total.
pub open spec fn delta_verdict(c: MetricCounts, d: MetricDelta, total: Option<u64>) -> TransitionVerdict {
    let terminal = delta_terminal(d);
    let available = c.active + d.started;
    let next = MetricCounts {
        active: (available - terminal) as u64,
        completed_unclassified: (c.completed_unclassified + d.unclassified) as u64,
        succeeded: (c.succeeded + d.succeeded) as u64,
        failed: (c.failed + d.failed) as u64,
        cancelled: (c.cancelled + d.cancelled) as u64,
    };
    if terminal > u64::MAX || available > u64::MAX {
        TransitionVerdict::Overflow
    } else if terminal > available {
        TransitionVerdict::Insufficient(available as u64)
    } else if c.completed_unclassified + d.unclassified > u64::MAX || c.succeeded + d.succeeded
        > u64::MAX || c.failed + d.failed > u64::MAX || c.cancelled + d.cancelled > u64::MAX {
        TransitionVerdict::Overflow
    } else if occupied_of(next) > u64::MAX {
        TransitionVerdict::Overflow
    } else if total is Some && occupied_of(next) > total->0 {
        TransitionVerdict::OverTotal(total->0, occupied_of(next) as u64)
    } else {
        TransitionVerdict::Applied(next)
    }
}

/// The counts a delta yields from `c` under `total`, or `None` when
/// [`delta_verdict`] rejects it.
pub open spec fn delta_outcome(c: MetricCounts, d: MetricDelta, total: Option<u64>) -> Option<MetricCounts> {
    match delta_verdict(c, d, total) {
        TransitionVerdict::Applied(next) => Some(next),
        _ => None,
    }
}

/// Whether `e` is the error that a rejected delta is reported with: the
/// overflow error, the insufficient-count error of a `Complete` transition
/// for the whole terminal amount, or the total-exceeded error.
pub open spec fn delta_error_matches(
    e: MetricError,
    c: MetricCounts,
    d: MetricDelta,
    total: Option<u64>,
    metric_id: Seq<char>,
) -> bool {
    error_matches_verdict(
        e,
        delta_verdict(c, d, total),
        metric_id,
        MetricTransition::Complete,
        delta_terminal(d) as u64,
    )
}

/// Immutable complete state for one metric in an emitted event.
#[derive(Clone, Debug, PartialEq, Eq)]
pub struct MetricSnapshot {
    /// Machine-readable metric ID.
    id: String,
    /// Human-readable metric name.
    name: String,
    /// Configured total, if known.
    total: Option<u64>,
    /// Completed count.
    completed: u64,
    /// Active count.
    active: u64,
    /// Succeeded count.
    succeeded: u64,
    /// Failed count.
    failed: u64,
    /// Cancelled count.
    cancelled: u64,
}

impl View for MetricSnapshot {
    type V = MetricSnapshotView;

    closed spec fn view(&self) -> MetricSnapshotView {
        MetricSnapshotView {
            id: self.id@,
            name: self.name@,
            total: self.total,
            completed: self.completed,
            active: self.active,
            succeeded: self.succeeded,
            failed: self.failed,
            cancelled: self.cancelled,
        }
    }
}

/// What is wrong with a snapshot read back from a record, checking in this
/// order: 1 blank ID, 2 blank name, 3 classified counts that overflow, 4
/// classified counts above completed work, 5 dynamic counts under a zero
/// total, 6 occupied work that overflows, 7 occupied work above the total;
/// 0 for a consistent snapshot.
pub open spec fn snapshot_fault(s: MetricSnapshotView) -> int {
    let classified = s.succeeded + s.failed + s.cancelled;
    let occupied = s.completed + s.active;
    if is_blank_text(s.id) {
        1
    } else if is_blank_text(s.name) {
        2
    } else if classified > u64::MAX {
        3
    } else if classified > s.completed {
        4
    } else if s.total == Some(0u64) && (s.completed != 0 || s.active != 0 || s.succeeded != 0
        || s.failed != 0 || s.cancelled != 0) {
        5
    } else if occupied > u64::MAX {
        6
    } else if s.total matches Some(t) && occupied > t {
        7
    } else {
        0
    }
}

/// Whether `e` reports snapshot fault `fault` of `s`, naming its metric.
pub open spec fn reports_snapshot_fault(e: ValidationError, fault: int, s: MetricSnapshotView) -> bool {
    if fault == 1 {
        e == ValidationError::EmptyMetricId { index: 0 }
    } else {
        match e {
            ValidationError::EmptyMetricName { metric_id } => fault == 2 && metric_id@ == s.id,
            ValidationError::CountOverflow { metric_id } => (fault == 3 || fault == 6)
                && metric_id@ == s.id,
            ValidationError::ClassifiedExceedsCompleted { metric_id } => fault == 4
                && metric_id@ == s.id,
            ValidationError::NonZeroCountsForZeroTotal { metric_id } => fault == 5
                && metric_id@ == s.id,
            ValidationError::CountsExceedTotal { metric_id } => fault == 7 && metric_id@ == s.id,
            _ => false,
        }
    }
}

/// The snapshot that metric metadata and counts describe.
pub open spec fn snapshot_of(metric: MetricView, c: MetricCounts) -> MetricSnapshotView {
    MetricSnapshotView {
        id: metric.id,
        name: metric.name,
        total: metric.total,
        completed: completed_of(c) as u64,
        active: c.active,
        succeeded: c.succeeded,
        failed: c.failed,
        cancelled: c.cancelled,
    }
}

impl MetricSnapshot {
    /// Builds an immutable snapshot from one metric state.
    ///
    /// Fails only when the completed count does not fit in 64 bits.
    pub fn from_counts(metric: &Metric, counts: MetricCounts) -> (r: Result<Self, MetricError>)
        ensures
            completed_of(counts) <= u64::MAX ==> r is Ok && r->Ok_0@ == snapshot_of(metric@, counts),
            completed_of(counts) > u64::MAX ==> r is Err && r->Err_0.is_overflow_for(metric@.id),
    {
        let completed = counts.completed(metric.id())?;
        Ok(
            MetricSnapshot {
                id: metric.id_string(),
                name: metric.name.clone(),
                total: metric.total,
                completed,
                active: counts.active,
                succeeded: counts.succeeded,
                failed: counts.failed,
                cancelled: counts.cancelled,
            },
        )
    }

    /// Builds the snapshot of counts whose completed sum fits in 64 bits.
    pub fn of_counts(metric: &Metric, counts: MetricCounts) -> (s: Self)
        requires
            completed_of(counts) <= u64::MAX,
        ensures
            s@ == snapshot_of(metric@, counts),
    {
        MetricSnapshot {
            id: metric.id_string(),
            name: metric.name.clone(),
            total: metric.total,
            completed: counts.completed_unclassified + counts.succeeded + counts.failed
                + counts.cancelled,
            active: counts.active,
            succeeded: counts.succeeded,
            failed: counts.failed,
            cancelled: counts.cancelled,
        }
    }

    /// Reads a snapshot back from a record, accepting only a consistent one:
    /// nonblank ID and name, classified work within completed work, no
    /// dynamic counts under a zero total, and occupied work within a known
    /// total, all without overflow. The first fault that
    /// [`snapshot_fault`] names is reported.
    pub fn try_from_parts(
        id: &str,
        name: &str,
        total: Option<u64>,
        completed: u64,
        active: u64,
        succeeded: u64,
        failed: u64,
        cancelled: u64,
    ) -> (r: Result<Self, ValidationError>)
        ensures
            ({
                let v = MetricSnapshotView {
                    id: id@,
                    name: name@,
                    total,
                    completed,
                    active,
                    succeeded,
                    failed,
                    cancelled,
                };
                &&& r is Ok <==> snapshot_fault(v) == 0
                &&& r matches Ok(s) ==> s@ == v
                &&& r matches Err(e) ==> reports_snapshot_fault(e, snapshot_fault(v), v)
            }),
    {
        if is_blank(id) {
            return Err(ValidationError::EmptyMetricId { index: 0 });
        }
        if is_blank(name) {
            return Err(ValidationError::EmptyMetricName { metric_id: id.to_owned() });
        }
        let classified = match succeeded.checked_add(failed) {
            Some(v) => match v.checked_add(cancelled) {
                Some(w) => w,
                None => {
                    return Err(ValidationError::CountOverflow { metric_id: id.to_owned() });
                },
            },
            None => {
                return Err(ValidationError::CountOverflow { metric_id: id.to_owned() });
            },
        };
        if classified > completed {
            return Err(ValidationError::ClassifiedExceedsCompleted { metric_id: id.to_owned() });
        }
        if total == Some(0u64) && (completed != 0 || active != 0 || succeeded != 0 || failed != 0
            || cancelled != 0) {
            return Err(ValidationError::NonZeroCountsForZeroTotal { metric_id: id.to_owned() });
        }
        let occupied = match completed.checked_add(active) {
            Some(v) => v,
            None => {
                return Err(ValidationError::CountOverflow { metric_id: id.to_owned() });
            },
        };
        if let Some(t) = total {
            if occupied > t {
                return Err(ValidationError::CountsExceedTotal { metric_id: id.to_owned() });
            }
        }
        Ok(MetricSnapshot::from_parts(id, name, total, completed, active, succeeded, failed, cancelled))
    }

    /// Builds a snapshot from explicit values, as read back from a serialized
    /// event.
    pub fn from_parts(
        id: &str,
        name: &str,
        total: Option<u64>,
        completed: u64,
        active: u64,
        succeeded: u64,
        failed: u64,
        cancelled: u64,
    ) -> (s: Self)
        ensures
            s@ == (MetricSnapshotView {
                id: id@,
                name: name@,
                total,
                completed,
                active,
                succeeded,
                failed,
                cancelled,
            }),
    {
        MetricSnapshot {
            id: id.to_owned(),
            name: name.to_owned(),
            total,
            completed,
            active,
            succeeded,
            failed,
            cancelled,
        }
    }

    /// Returns the metric's stable ID.
    pub fn id(&self) -> (id: &str)
        ensures
            id@ == self@.id,
    {
        self.id.as_str()
    }

    /// Returns the metric's display name.
    pub fn name(&self) -> (name: &str)
        ensures
            name@ == self@.name,
    {
        self.name.as_str()
    }

    /// Returns the total configured for this event's metric.
    pub fn total(&self) -> (total: Option<u64>)
        ensures
            total == self@.total,
    {
        self.total
    }

    /// Returns the number of completed work items.
    pub fn completed(&self) -> (n: u64)
        ensures
            n == self@.completed,
    {
        self.completed
    }

    /// Returns the number of active work items.
    pub fn active(&self) -> (n: u64)
        ensures
            n == self@.active,
    {
        self.active
    }

    /// Returns the number of explicitly successful work items.
    pub fn succeeded(&self) -> (n: u64)
        ensures
            n == self@.succeeded,
    {
        self.succeeded
    }

    /// Returns the number of explicitly failed work items.
    pub fn failed(&self) -> (n: u64)
        ensures
            n == self@.failed,
    {
        self.failed
    }

    /// Returns the number of explicitly cancelled work items.
    pub fn cancelled(&self) -> (n: u64)
        ensures
            n == self@.cancelled,
    {
        self.cancelled
    }
}

/// Any admitted transition yields counts whose sums fit in 64 bits and whose
/// occupied work stays within the known total, whatever counts it started from.
pub proof fn lemma_applied_counts_within(
    c: MetricCounts,
    t: MetricTransition,
    d: Direction,
    n: u64,
    total: Option<u64>,
)
    requires
        transition_verdict(c, t, d, n, total) is Applied,
    ensures
        counts_within(transition_verdict(c, t, d, n, total)->Applied_0, total),
{
}

/// Work is conserved: completing work of any kind moves it out of the active
/// state without changing the occupied amount, and only `Start` changes the
/// occupied amount, by exactly the moved count.
pub proof fn lemma_transition_conserves_work(
    c: MetricCounts,
    t: MetricTransition,
    d: Direction,
    n: u64,
    total: Option<u64>,
)
    requires
        transition_verdict(c, t, d, n, total) is Applied,
    ensures
        ({
            let next = transition_verdict(c, t, d, n, total)->Applied_0;
            &&& !(t is Start) ==> occupied_of(next) == occupied_of(c)
            &&& (t is Start && d is Forward) ==> occupied_of(next) == occupied_of(c) + n
            &&& (t is Start && d is Rollback) ==> occupied_of(next) == occupied_of(c) - n
            &&& (t is Start) ==> completed_of(next) == completed_of(c)
            &&& (!(t is Start) && d is Forward) ==> completed_of(next) == completed_of(c) + n
                && next.active == c.active - n
            &&& (!(t is Start) && d is Rollback) ==> completed_of(next) == completed_of(c) - n
                && next.active == c.active + n
        }),
{
}

/// Rolling a transition back right after it was applied restores the exact
/// counts it started from.
pub proof fn lemma_rollback_undoes_forward(
    c: MetricCounts,
    t: MetricTransition,
    n: u64,
    total: Option<u64>,
)
    requires
        transition_verdict(c, t, Direction::Forward, n, total) is Applied,
    ensures
        transition_verdict(
            transition_verdict(c, t, Direction::Forward, n, total)->Applied_0,
            t,
            Direction::Rollback,
            n,
            total,
        ) == TransitionVerdict::Applied(c),
{
    let next = transition_verdict(c, t, Direction::Forward, n, total)->Applied_0;
    assert(moved(next, t, Direction::Rollback, n) == c);
}

/// Re-applying a transition right after rolling it back restores the exact
/// counts, provided those counts respected the operation's limits.
pub proof fn lemma_forward_undoes_rollback(
    c: MetricCounts,
    t: MetricTransition,
    n: u64,
    total: Option<u64>,
)
    requires
        counts_within(c, total),
        transition_verdict(c, t, Direction::Rollback, n, total) is Applied,
    ensures
        transition_verdict(
            transition_verdict(c, t, Direction::Rollback, n, total)->Applied_0,
            t,
            Direction::Forward,
            n,
            total,
        ) == TransitionVerdict::Applied(c),
{
    let next = transition_verdict(c, t, Direction::Rollback, n, total)->Applied_0;
    assert(moved(next, t, Direction::Forward, n) == c);
}

/// A delta that moves work along one transition only is admitted exactly
/// when that forward transition is, with the same resulting counts.
pub proof fn lemma_single_delta_is_transition(
    c: MetricCounts,
    t: MetricTransition,
    n: u64,
    total: Option<u64>,
)
    ensures
        ({
            let d = match t {
                MetricTransition::Start => MetricDelta { started: n, ..MetricDelta::default_spec() },
                MetricTransition::Complete => MetricDelta {
                    unclassified: n,
                    ..MetricDelta::default_spec()
                },
                MetricTransition::Succeed => MetricDelta {
                    succeeded: n,
                    ..MetricDelta::default_spec()
                },
                MetricTransition::Fail => MetricDelta { failed: n, ..MetricDelta::default_spec() },
                MetricTransition::Cancel => MetricDelta {
                    cancelled: n,
                    ..MetricDelta::default_spec()
                },
            };
            &&& delta_outcome(c, d, total) is Some <==> transition_verdict(
                c,
                t,
                Direction::Forward,
                n,
                total,
            ) is Applied
            &&& delta_outcome(c, d, total) is Some ==> delta_outcome(c, d, total)->0
                == transition_verdict(c, t, Direction::Forward, n, total)->Applied_0
        }),
{
}

/// Every admitted delta keeps the counts within their limits: all sums fit
/// in 64 bits and the occupied work stays within a known total.
pub proof fn lemma_delta_counts_within(c: MetricCounts, d: MetricDelta, total: Option<u64>)
    requires
        delta_outcome(c, d, total) is Some,
    ensures
        counts_within(delta_outcome(c, d, total)->0, total),
{
}

/// An admitted delta conserves work: the occupied amount grows by exactly the
/// started work, and the completed amount by exactly the terminal work.
pub proof fn lemma_delta_conserves_work(c: MetricCounts, d: MetricDelta, total: Option<u64>)
    requires
        delta_outcome(c, d, total) is Some,
    ensures
        occupied_of(delta_outcome(c, d, total)->0) == occupied_of(c) + d.started,
        completed_of(delta_outcome(c, d, total)->0) == completed_of(c) + d.unclassified
            + d.succeeded + d.failed + d.cancelled,
{
}

} // verus!
