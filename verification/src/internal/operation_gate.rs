//! Lifecycle protocol that admits metric updates and freezes them for finish.

use vstd::prelude::*;

use super::OperationLifecycle;

verus! {

/// Lifecycle states published by an [`OperationGate`].
#[derive(Clone, Copy, Debug, PartialEq, Eq, Structural)]
pub enum GateLifecycle {
    /// New updates may be admitted.
    Open,
    /// New updates are rejected while admitted updates drain.
    Finishing,
    /// The operation is permanently closed.
    Closed,
}

/// The operation lifecycle that a gate lifecycle publishes.
pub open spec fn lifecycle_of(g: GateLifecycle) -> OperationLifecycle {
    match g {
        GateLifecycle::Open => OperationLifecycle::Open,
        GateLifecycle::Finishing => OperationLifecycle::Finishing,
        GateLifecycle::Closed => OperationLifecycle::Closed,
    }
}

impl GateLifecycle {
    /// Returns the operation lifecycle this gate state publishes.
    pub fn to_operation_lifecycle(self) -> (l: OperationLifecycle)
        ensures
            l == lifecycle_of(self),
    {
        match self {
            GateLifecycle::Open => OperationLifecycle::Open,
            GateLifecycle::Finishing => OperationLifecycle::Finishing,
            GateLifecycle::Closed => OperationLifecycle::Closed,
        }
    }
}

/// `n + 1`, wrapping to zero after the largest value.
pub open spec fn count_up(n: usize) -> usize {
    if n == usize::MAX {
        0
    } else {
        (n + 1) as usize
    }
}

/// `n - 1`, wrapping to the largest value below zero.
pub open spec fn count_down(n: usize) -> usize {
    if n == 0 {
        usize::MAX
    } else {
        (n - 1) as usize
    }
}

/// `n + 1`, wrapping to zero after the largest value.
fn wrapping_increment(n: usize) -> (r: usize)
    ensures
        r == count_up(n),
    no_unwind
{
    if n == usize::MAX {
        0
    } else {
        n + 1
    }
}

/// `n - 1`, wrapping to the largest value below zero.
fn wrapping_decrement(n: usize) -> (r: usize)
    ensures
        r == count_down(n),
    no_unwind
{
    if n == 0 {
        usize::MAX
    } else {
        n - 1
    }
}

/// Lifecycle gate shared by an operation and its metric updates.
///
/// Updates register while it is open; a finishing gate admits no new
/// update, and a closed gate never opens again.
#[derive(Debug)]
pub struct OperationGate {
    /// Published lifecycle state.
    lifecycle: GateLifecycle,
    /// Number of updates that passed the open check and have not left.
    active_updates: usize,
}

impl OperationGate {
    /// The published lifecycle state.
    pub closed spec fn state(&self) -> GateLifecycle {
        self.lifecycle
    }

    /// The number of registered updates.
    pub closed spec fn registered(&self) -> usize {
        self.active_updates
    }

    /// Creates an open gate with no registered updates.
    pub fn new() -> (g: Self)
        ensures
            g.state() is Open,
            g.registered() == 0,
    {
        OperationGate { lifecycle: GateLifecycle::Open, active_updates: 0 }
    }

    /// Returns the currently published lifecycle state.
    pub fn lifecycle(&self) -> (l: GateLifecycle)
        ensures
            l == self.state(),
        no_unwind
    {
        self.lifecycle
    }

    /// Registers one update if the operation is open.
    ///
    /// Returns the lifecycle state that rejected the update otherwise.
    pub fn enter_update(&mut self) -> (r: Result<(), GateLifecycle>)
        ensures
            gate_step((old(self).state(), old(self).registered()), GateCall::Enter(r is Ok), (final(self).state(), final(self).registered())),
            old(self).state() is Open ==> r is Ok && final(self).state() is Open
                && final(self).registered() == count_up(old(self).registered()),
            !(old(self).state() is Open) ==> r == Err::<(), GateLifecycle>(old(self).state())
                && final(self).state() == old(self).state() && final(self).registered()
                == old(self).registered(),
        no_unwind
    {
        let state = self.lifecycle();
        if state != GateLifecycle::Open {
            return Err(state);
        }
        self.active_updates = wrapping_increment(self.active_updates);
        // Registering before the second lifecycle read lets a finish that
        // began in between wait for this update to leave.
        let state = self.lifecycle();
        if state == GateLifecycle::Open {
            Ok(())
        } else {
            self.active_updates = wrapping_decrement(self.active_updates);
            Err(state)
        }
    }

    /// Releases one previously registered update.
    pub fn leave_update(&mut self)
        ensures
            gate_step((old(self).state(), old(self).registered()), GateCall::Leave, (final(self).state(), final(self).registered())),
            final(self).state() == old(self).state(),
            final(self).registered() == count_down(old(self).registered()),
        no_unwind
    {
        self.active_updates = wrapping_decrement(self.active_updates);
    }

    /// Returns the number of updates currently registered.
    pub fn active_updates(&self) -> (n: usize)
        ensures
            n == self.registered(),
    {
        self.active_updates
    }

    /// Transitions an open gate to finishing.
    ///
    /// Returns `false`, changing nothing, unless it is open. Updates
    /// registered before the transition remain counted until they leave; the
    /// caller waits for [`Self::active_updates`] to reach zero before it relies
    /// on frozen state.
    pub fn try_begin_finish(&mut self) -> (began: bool)
        ensures
            gate_step((old(self).state(), old(self).registered()), GateCall::BeginFinish(began), (final(self).state(), final(self).registered())),
            began == (old(self).state() is Open),
            began ==> final(self).state() is Finishing,
            !began ==> final(self).state() == old(self).state(),
            final(self).registered() == old(self).registered(),
        no_unwind
    {
        if self.lifecycle != GateLifecycle::Open {
            return false;
        }
        self.lifecycle = GateLifecycle::Finishing;
        true
    }

    /// Reopens a finishing gate after validation fails.
    pub fn reopen(&mut self)
        requires
            old(self).state() is Finishing,
        ensures
            gate_step((old(self).state(), old(self).registered()), GateCall::Reopen, (final(self).state(), final(self).registered())),
            final(self).state() is Open,
            final(self).registered() == old(self).registered(),
        no_unwind
    {
        self.lifecycle = GateLifecycle::Open;
    }

    /// Permanently closes this gate.
    pub fn close(&mut self)
        ensures
            gate_step((old(self).state(), old(self).registered()), GateCall::Close, (final(self).state(), final(self).registered())),
            final(self).state() is Closed,
            final(self).registered() == old(self).registered(),
        no_unwind
    {
        self.lifecycle = GateLifecycle::Closed;
    }
}

impl Default for OperationGate {
    /// Creates an open gate with no registered updates.
    fn default() -> (g: Self)
        ensures
            g.state() is Open,
            g.registered() == 0,
    {
        OperationGate::new()
    }
}

/// One call on a gate and what it returned.
pub enum GateCall {
    /// `enter_update`, and whether it admitted the update.
    Enter(bool),
    /// `leave_update`.
    Leave,
    /// `try_begin_finish`, and whether it began finishing.
    BeginFinish(bool),
    /// `reopen`.
    Reopen,
    /// `close`.
    Close,
}

/// What one call does to a gate's lifecycle and registered-update count.
pub open spec fn gate_step(
    before: (GateLifecycle, usize),
    call: GateCall,
    after: (GateLifecycle, usize),
) -> bool {
    match call {
        GateCall::Enter(admitted) => {
            &&& admitted == (before.0 is Open)
            &&& admitted ==> after == (GateLifecycle::Open, count_up(before.1))
            &&& !admitted ==> after == before
        },
        GateCall::Leave => after == (before.0, count_down(before.1)),
        GateCall::BeginFinish(began) => {
            &&& began == (before.0 is Open)
            &&& began ==> after == (GateLifecycle::Finishing, before.1)
            &&& !began ==> after == before
        },
        GateCall::Reopen => before.0 is Finishing && after == (GateLifecycle::Open, before.1),
        GateCall::Close => after == (GateLifecycle::Closed, before.1),
    }
}

/// The updates admitted among the first `k` calls.
pub open spec fn admitted_count(calls: Seq<GateCall>, k: int) -> int
    decreases k,
{
    if k <= 0 {
        0
    } else {
        admitted_count(calls, k - 1) + if calls[k - 1] matches GateCall::Enter(true) {
            1int
        } else {
            0int
        }
    }
}

/// The updates released among the first `k` calls.
pub open spec fn released_count(calls: Seq<GateCall>, k: int) -> int
    decreases k,
{
    if k <= 0 {
        0
    } else {
        released_count(calls, k - 1) + if calls[k - 1] is Leave {
            1int
        } else {
            0int
        }
    }
}

/// The number of distinct values a `usize` takes.
pub open spec fn usize_span() -> int {
    usize::MAX + 1
}

/// Counting up or down one step moves the remainder of `d` modulo the
/// `usize` span to the remainder of `d + 1` or `d - 1`.
proof fn lemma_count_steps(x: usize, d: int)
    requires
        x == d % usize_span(),
    ensures
        count_up(x) == (d + 1) % usize_span(),
        count_down(x) == (d - 1) % usize_span(),
{
    let m = usize_span();
    vstd::arithmetic::div_mod::lemma_small_mod(1, m as nat);
    vstd::arithmetic::div_mod::lemma_add_mod_noop(d, 1, m);
    vstd::arithmetic::div_mod::lemma_sub_mod_noop(d, 1, m);
    if x + 1 < m {
        vstd::arithmetic::div_mod::lemma_small_mod((x + 1) as nat, m as nat);
    } else {
        vstd::arithmetic::div_mod::lemma_mod_self_0(m);
    }
    if x >= 1 {
        vstd::arithmetic::div_mod::lemma_small_mod((x - 1) as nat, m as nat);
    } else {
        vstd::arithmetic::div_mod::lemma_mod_add_multiples_vanish(-1, m);
        vstd::arithmetic::div_mod::lemma_small_mod((m - 1) as nat, m as nat);
    }
}

/// No prefix releases a negative number of updates.
proof fn lemma_released_nonnegative(calls: Seq<GateCall>, k: int)
    ensures
        released_count(calls, k) >= 0,
    decreases k,
{
    if k > 0 {
        lemma_released_nonnegative(calls, k - 1);
    }
}

/// A count within the `usize` range is its own remainder.
proof fn lemma_count_in_range(x: usize, d: int)
    requires
        x == d % usize_span(),
        0 <= d <= usize::MAX,
    ensures
        x == d,
{
    vstd::arithmetic::div_mod::lemma_small_mod(d as nat, usize_span() as nat);
}

/// A gate counts exactly the updates it admitted and that have not left.
///
/// Starting from no registered update, after any run of calls the registered
/// count is the number of admitted `enter_update` calls less the number of
/// `leave_update` calls, taken, as the count's arithmetic wraps, modulo the
/// `usize` span; rejected entries are never counted. Whenever no more updates
/// have left than were admitted, and the admitted ones fit a `usize`, it is
/// that difference exactly.
pub proof fn lemma_registered_updates(trace: Seq<(GateLifecycle, usize)>, calls: Seq<GateCall>)
    requires
        trace.len() == calls.len() + 1,
        trace[0].1 == 0,
        forall|i: int| 0 <= i < calls.len() ==> #[trigger] gate_step(trace[i], calls[i], trace[i + 1]),
    ensures
        forall|k: int|
            0 <= k <= calls.len() ==> (#[trigger] trace[k]).1 == (admitted_count(calls, k)
                - released_count(calls, k)) % usize_span(),
        forall|k: int|
            0 <= k <= calls.len() && released_count(calls, k) <= admitted_count(calls, k)
                <= usize::MAX ==> (#[trigger] trace[k]).1 == admitted_count(calls, k)
                - released_count(calls, k),
{
    assert forall|k: int| 0 <= k <= calls.len() implies (#[trigger] trace[k]).1 == (admitted_count(
        calls,
        k,
    ) - released_count(calls, k)) % usize_span() by {
        lemma_registered_prefix(trace, calls, k);
    }
    assert forall|k: int|
        0 <= k <= calls.len() && released_count(calls, k) <= admitted_count(calls, k)
            <= usize::MAX implies (#[trigger] trace[k]).1 == admitted_count(calls, k)
            - released_count(calls, k) by {
        lemma_registered_prefix(trace, calls, k);
        lemma_released_nonnegative(calls, k);
        lemma_count_in_range(trace[k].1, admitted_count(calls, k) - released_count(calls, k));
    }
}

/// The registered count after the first `k` calls, modulo the `usize` span.
proof fn lemma_registered_prefix(trace: Seq<(GateLifecycle, usize)>, calls: Seq<GateCall>, k: int)
    requires
        trace.len() == calls.len() + 1,
        trace[0].1 == 0,
        forall|i: int| 0 <= i < calls.len() ==> #[trigger] gate_step(trace[i], calls[i], trace[i + 1]),
        0 <= k <= calls.len(),
    ensures
        trace[k].1 == (admitted_count(calls, k) - released_count(calls, k)) % usize_span(),
    decreases k,
{
    if k == 0 {
        vstd::arithmetic::div_mod::lemma_small_mod(0, usize_span() as nat);
    } else {
        lemma_registered_prefix(trace, calls, k - 1);
        let i = k - 1;
        assert(gate_step(trace[i], calls[i], trace[i + 1]));
        let d = admitted_count(calls, k - 1) - released_count(calls, k - 1);
        lemma_count_steps(trace[k - 1].1, d);
    }
}

/// A closed gate stays closed: after any later run of calls it is still
/// closed, and no later call admits an update, begins a finish or reopens it.
pub proof fn lemma_closed_gate_stays_closed(
    trace: Seq<(GateLifecycle, usize)>,
    calls: Seq<GateCall>,
    i: int,
)
    requires
        trace.len() == calls.len() + 1,
        forall|j: int| 0 <= j < calls.len() ==> #[trigger] gate_step(trace[j], calls[j], trace[j + 1]),
        0 <= i <= calls.len(),
        trace[i].0 is Closed,
    ensures
        forall|j: int| i <= j <= calls.len() ==> (#[trigger] trace[j]).0 is Closed,
        forall|j: int|
            i <= j < calls.len() ==> !((#[trigger] calls[j]) matches GateCall::Enter(true))
                && !(calls[j] matches GateCall::BeginFinish(true)) && !(calls[j] is Reopen),
{
    assert forall|j: int| i <= j <= calls.len() implies (#[trigger] trace[j]).0 is Closed by {
        lemma_closed_prefix(trace, calls, i, j);
    }
    assert forall|j: int| i <= j < calls.len() implies !((#[trigger] calls[j]) matches GateCall::Enter(
        true,
    )) && !(calls[j] matches GateCall::BeginFinish(true)) && !(calls[j] is Reopen) by {
        lemma_closed_prefix(trace, calls, i, j);
        assert(gate_step(trace[j], calls[j], trace[j + 1]));
    }
}

/// A gate closed at call `i` is still closed at call `j >= i`.
proof fn lemma_closed_prefix(
    trace: Seq<(GateLifecycle, usize)>,
    calls: Seq<GateCall>,
    i: int,
    j: int,
)
    requires
        trace.len() == calls.len() + 1,
        forall|k: int| 0 <= k < calls.len() ==> #[trigger] gate_step(trace[k], calls[k], trace[k + 1]),
        0 <= i <= j <= calls.len(),
        trace[i].0 is Closed,
    ensures
        trace[j].0 is Closed,
    decreases j - i,
{
    if j > i {
        lemma_closed_prefix(trace, calls, i, j - 1);
        let k = j - 1;
        assert(gate_step(trace[k], calls[k], trace[k + 1]));
    }
}

} // verus!
