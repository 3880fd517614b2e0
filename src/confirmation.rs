//! Tracking of in-flight delivery confirmations.
//!
//! Every outbound send (telemetry message or reported state) is registered
//! under a fresh correlation id, which is what crosses the native boundary as
//! the callback's context. The native confirmation callback resolves the entry
//! by id; an entry that is not resolved before its deadline times out; at
//! shutdown the remaining entries are waited for up to a drain deadline and
//! then aborted. Finished entries are kept until they are reaped.
use vstd::prelude::*;

verus! {

/// The kind of outbound operation a confirmation belongs to.
#[derive(Clone, Copy, Debug, PartialEq, Eq, Structural)]
pub enum Operation {
    /// a device-to-cloud telemetry message
    D2cMessage,
    /// a report of twin properties
    ReportedState,
}

/// How a confirmation ended.
#[derive(Clone, Copy, Debug, PartialEq, Eq, Structural)]
pub enum Outcome {
    /// the native layer confirmed the delivery
    Succeeded,
    /// the native layer reported a failure
    Failed,
    /// no confirmation came before the deadline
    TimedOut,
    /// the wait was given up at shutdown
    Aborted,
}

/// A confirmation that is still awaited.
#[derive(Clone, Copy, Debug, PartialEq, Eq, Structural)]
pub struct PendingConfirmation {
    /// correlation id handed to the native layer
    pub id: u64,
    /// diagnostic trace id
    pub trace_id: u32,
    /// what was sent
    pub operation: Operation,
    /// instant (in milliseconds) from which the confirmation counts as timed out
    pub deadline: u64,
}

/// A confirmation that ended and has not been reaped yet.
#[derive(Clone, Copy, Debug, PartialEq, Eq, Structural)]
pub struct FinishedConfirmation {
    /// correlation id handed to the native layer
    pub id: u64,
    /// diagnostic trace id
    pub trace_id: u32,
    /// what was sent
    pub operation: Operation,
    /// how it ended
    pub outcome: Outcome,
}

/// What a shutdown step asks the caller to do next.
#[derive(Clone, Copy, Debug, PartialEq, Eq, Structural)]
pub enum ShutdownStep {
    /// nothing is pending any more
    Complete,
    /// wait until the given instant (or until a confirmation arrives), then step again
    WaitUntil(u64),
    /// the drain deadline passed: this many pending confirmations were aborted
    Aborted(u64),
}

/// The entry `p` ended with outcome `o`.
pub open spec fn finish(p: PendingConfirmation, o: Outcome) -> FinishedConfirmation {
    FinishedConfirmation { id: p.id, trace_id: p.trace_id, operation: p.operation, outcome: o }
}

/// No two pending entries share a correlation id.
pub open spec fn ids_unique(s: Seq<PendingConfirmation>) -> bool {
    forall|a: int, b: int| 0 <= a < s.len() && 0 <= b < s.len() && a != b ==> s[a].id != s[b].id
}

/// Every pending id is below `bound`.
pub open spec fn ids_below(s: Seq<PendingConfirmation>, bound: u64) -> bool {
    forall|a: int| 0 <= a < s.len() ==> #[trigger] s[a].id < bound
}

/// Some pending entry carries correlation id `id`.
pub open spec fn has_id(s: Seq<PendingConfirmation>, id: u64) -> bool {
    exists|i: int| 0 <= i < s.len() && #[trigger] s[i].id == id
}

/// The position of the pending entry with correlation id `id`.
pub open spec fn index_of(s: Seq<PendingConfirmation>, id: u64) -> int {
    choose|i: int| 0 <= i < s.len() && #[trigger] s[i].id == id
}

/// The entries of `s` whose deadline is still ahead at `now`, in order.
pub open spec fn unexpired(s: Seq<PendingConfirmation>, now: u64) -> Seq<PendingConfirmation>
    decreases s.len(),
{
    if s.len() == 0 {
        seq![]
    } else if now < s.last().deadline {
        unexpired(s.drop_last(), now).push(s.last())
    } else {
        unexpired(s.drop_last(), now)
    }
}

/// The entries of `s` whose deadline has passed at `now`, as timed out, in order.
pub open spec fn expired(s: Seq<PendingConfirmation>, now: u64) -> Seq<FinishedConfirmation>
    decreases s.len(),
{
    if s.len() == 0 {
        seq![]
    } else if now < s.last().deadline {
        expired(s.drop_last(), now)
    } else {
        expired(s.drop_last(), now).push(finish(s.last(), Outcome::TimedOut))
    }
}

/// The entries of `s`, as aborted, in order.
pub open spec fn aborted(s: Seq<PendingConfirmation>) -> Seq<FinishedConfirmation> {
    s.map_values(|p: PendingConfirmation| finish(p, Outcome::Aborted))
}

/// The earliest deadline among the entries of `s` (the largest instant when empty).
pub open spec fn earliest_deadline(s: Seq<PendingConfirmation>) -> u64
    decreases s.len(),
{
    if s.len() == 0 {
        u64::MAX
    } else {
        let rest = earliest_deadline(s.drop_last());
        if s.last().deadline < rest {
            s.last().deadline
        } else {
            rest
        }
    }
}

/// The abstract state of a tracker.
pub ghost struct TrackerView {
    /// how long (in milliseconds) a confirmation is waited for
    pub timeout: u64,
    /// the correlation id the next registration receives
    pub next_id: u64,
    /// the awaited confirmations, in order of registration
    pub pending: Seq<PendingConfirmation>,
    /// the ended, not yet reaped confirmations, in order of ending
    pub finished: Seq<FinishedConfirmation>,
}

impl TrackerView {
    /// The well-formedness every tracker keeps.
    pub open spec fn wf(self) -> bool {
        ids_unique(self.pending) && ids_below(self.pending, self.next_id)
    }

    /// The state after registering an operation at `now`.
    pub open spec fn registered(self, operation: Operation, trace_id: u32, now: u64) -> TrackerView {
        TrackerView {
            next_id: (self.next_id + 1) as u64,
            pending: self.pending.push(
                PendingConfirmation {
                    id: self.next_id,
                    trace_id,
                    operation,
                    deadline: now.saturating_add(self.timeout),
                },
            ),
            ..self
        }
    }

    /// The state after the native layer reported on `id`; unchanged when
    /// `id` is not pending (unknown, or already resolved).
    pub open spec fn resolved(self, id: u64, succeeded: bool) -> TrackerView {
        if has_id(self.pending, id) {
            let i = index_of(self.pending, id);
            TrackerView {
                pending: self.pending.remove(i),
                finished: self.finished.push(
                    finish(
                        self.pending[i],
                        if succeeded {
                            Outcome::Succeeded
                        } else {
                            Outcome::Failed
                        },
                    ),
                ),
                ..self
            }
        } else {
            self
        }
    }

    /// The state and step after one shutdown step at `now` with drain
    /// deadline `drain_deadline`: entries whose deadline passed time out;
    /// then nothing pending gives `Complete`; a reached drain deadline aborts
    /// the remaining entries; otherwise the step waits until the earlier of
    /// the drain deadline and the next entry deadline.
    pub open spec fn shutdown_outcome(self, now: u64, drain_deadline: u64) -> (TrackerView, ShutdownStep) {
        let e = self.expired_at(now);
        if e.pending.len() == 0 {
            (e, ShutdownStep::Complete)
        } else if drain_deadline <= now {
            (
                TrackerView { pending: seq![], finished: e.finished + aborted(e.pending), ..e },
                ShutdownStep::Aborted(e.pending.len() as u64),
            )
        } else {
            (
                e,
                ShutdownStep::WaitUntil(
                    if earliest_deadline(e.pending) < drain_deadline {
                        earliest_deadline(e.pending)
                    } else {
                        drain_deadline
                    },
                ),
            )
        }
    }

    /// The state after every entry whose deadline passed at `now` timed out.
    pub open spec fn expired_at(self, now: u64) -> TrackerView {
        TrackerView {
            pending: unexpired(self.pending, now),
            finished: self.finished + expired(self.pending, now),
            ..self
        }
    }
}

/// Tracker of in-flight confirmations.
pub struct ConfirmationTracker {
    timeout: u64,
    next_id: u64,
    pending: Vec<PendingConfirmation>,
    finished: Vec<FinishedConfirmation>,
}

impl View for ConfirmationTracker {
    type V = TrackerView;

    closed spec fn view(&self) -> TrackerView {
        TrackerView {
            timeout: self.timeout,
            next_id: self.next_id,
            pending: self.pending@,
            finished: self.finished@,
        }
    }
}

proof fn lemma_remove_keeps_wf(s: Seq<PendingConfirmation>, i: int, bound: u64)
    requires
        ids_unique(s),
        ids_below(s, bound),
        0 <= i < s.len(),
    ensures
        ids_unique(s.remove(i)),
        ids_below(s.remove(i), bound),
        !has_id(s.remove(i), s[i].id),
{
    s.remove_ensures(i);
    let r = s.remove(i);
    assert forall|a: int, b: int| 0 <= a < r.len() && 0 <= b < r.len() && a != b implies r[a].id
        != r[b].id by {
        let sa = if a < i {
            a
        } else {
            a + 1
        };
        let sb = if b < i {
            b
        } else {
            b + 1
        };
        assert(r[a] == s[sa]);
        assert(r[b] == s[sb]);
    }
    assert forall|a: int| 0 <= a < r.len() implies #[trigger] r[a].id < bound by {
        if a < i {
            assert(r[a] == s[a]);
        } else {
            assert(r[a] == s[a + 1]);
        }
    }
    if has_id(r, s[i].id) {
        let a = choose|a: int| 0 <= a < r.len() && #[trigger] r[a].id == s[i].id;
        if a < i {
            assert(r[a] == s[a]);
        } else {
            assert(r[a] == s[a + 1]);
        }
    }
}

pub(crate) proof fn lemma_unexpired_members(s: Seq<PendingConfirmation>, now: u64)
    ensures
        forall|x: PendingConfirmation| #[trigger]
            unexpired(s, now).contains(x) ==> s.contains(x) && now < x.deadline,
    decreases s.len(),
{
    if s.len() > 0 {
        lemma_unexpired_members(s.drop_last(), now);
        let r = unexpired(s.drop_last(), now);
        assert forall|x: PendingConfirmation| #[trigger]
            unexpired(s, now).contains(x) implies s.contains(x) && now < x.deadline by {
            let k = choose|k: int| 0 <= k < unexpired(s, now).len() && unexpired(s, now)[k] == x;
            if now < s.last().deadline && k == r.len() {
                assert(s[s.len() - 1] == x);
            } else {
                assert(r[k] == x);
                assert(r.contains(x));
                let j = choose|j: int| 0 <= j < s.drop_last().len() && s.drop_last()[j] == x;
                assert(s[j] == x);
            }
        }
    }
}

pub(crate) proof fn lemma_unexpired_wf(s: Seq<PendingConfirmation>, now: u64, bound: u64)
    requires
        ids_unique(s),
        ids_below(s, bound),
    ensures
        ids_unique(unexpired(s, now)),
        ids_below(unexpired(s, now), bound),
    decreases s.len(),
{
    lemma_unexpired_members(s, now);
    if s.len() > 0 {
        let d = s.drop_last();
        assert(ids_unique(d));
        assert(ids_below(d, bound));
        lemma_unexpired_wf(d, now, bound);
        lemma_unexpired_members(d, now);
        let r = unexpired(d, now);
        if now < s.last().deadline {
            let u = r.push(s.last());
            assert forall|a: int| 0 <= a < r.len() implies r[a].id != s.last().id by {
                assert(r.contains(r[a]));
                let j = choose|j: int| 0 <= j < d.len() && d[j] == r[a];
                assert(s[j] == r[a]);
            }
            assert forall|a: int, b: int|
                0 <= a < u.len() && 0 <= b < u.len() && a != b implies u[a].id != u[b].id by {
                if a < r.len() && b < r.len() {
                    assert(u[a] == r[a] && u[b] == r[b]);
                } else if a < r.len() {
                    assert(u[a] == r[a]);
                } else if b < r.len() {
                    assert(u[b] == r[b]);
                }
            }
            assert forall|a: int| 0 <= a < u.len() implies #[trigger] u[a].id < bound by {
                if a < r.len() {
                    assert(u[a] == r[a]);
                }
            }
        }
    }
}

proof fn lemma_earliest_deadline(s: Seq<PendingConfirmation>)
    ensures
        forall|i: int| 0 <= i < s.len() ==> earliest_deadline(s) <= #[trigger] s[i].deadline,
        s.len() > 0 ==> exists|i: int|
            0 <= i < s.len() && #[trigger] s[i].deadline == earliest_deadline(s),
    decreases s.len(),
{
    if s.len() > 0 {
        let d = s.drop_last();
        lemma_earliest_deadline(d);
        assert forall|i: int| 0 <= i < s.len() implies earliest_deadline(s) <= #[trigger] s[
            i
        ].deadline by {
            if i < d.len() {
                assert(s[i] == d[i]);
            }
        }
        if s.last().deadline >= earliest_deadline(d) && d.len() > 0 {
            let j = choose|j: int| 0 <= j < d.len() && #[trigger] d[j].deadline == earliest_deadline(d);
            assert(s[j] == d[j]);
        } else {
            assert(s[s.len() - 1].deadline == earliest_deadline(s));
        }
    }
}

impl ConfirmationTracker {
    /// An empty tracker whose confirmations are waited for `timeout_ms` milliseconds.
    pub fn new(timeout_ms: u64) -> (r: Self)
        ensures
            r@.wf(),
            r@ == (TrackerView {
                timeout: timeout_ms,
                next_id: 0,
                pending: seq![],
                finished: seq![],
            }),
    {
        ConfirmationTracker { timeout: timeout_ms, next_id: 0, pending: Vec::new(), finished: Vec::new() }
    }

    /// The correlation id the next registration receives.
    pub fn next_id(&self) -> (r: u64)
        ensures
            r == self@.next_id,
    {
        self.next_id
    }

    /// How long a confirmation is waited for, in milliseconds.
    pub fn timeout_ms(&self) -> (r: u64)
        ensures
            r == self@.timeout,
    {
        self.timeout
    }

    /// Number of confirmations still awaited.
    pub fn pending_count(&self) -> (r: usize)
        ensures
            r == self@.pending.len(),
    {
        self.pending.len()
    }

    /// Number of ended confirmations not reaped yet.
    pub fn finished_count(&self) -> (r: usize)
        ensures
            r == self@.finished.len(),
    {
        self.finished.len()
    }

    /// Whether the confirmation with correlation id `id` is still awaited.
    pub fn is_pending(&self, id: u64) -> (r: bool)
        ensures
            r == has_id(self@.pending, id),
    {
        let mut i: usize = 0;
        while i < self.pending.len()
            invariant
                0 <= i <= self.pending@.len(),
                forall|k: int| 0 <= k < i ==> self.pending@[k].id != id,
            decreases self.pending@.len() - i,
        {
            if self.pending[i].id == id {
                return true;
            }
            i = i + 1;
        }
        false
    }

    /// Registers an outbound operation sent at `now` and returns its fresh
    /// correlation id; `None` when the id space is used up, with nothing changed.
    pub fn register(&mut self, operation: Operation, trace_id: u32, now: u64) -> (r: Option<u64>)
        requires
            old(self)@.wf(),
        ensures
            final(self)@.wf(),
            old(self)@.next_id < u64::MAX ==> r == Some(old(self)@.next_id) && final(self)@
                == old(self)@.registered(operation, trace_id, now),
            old(self)@.next_id == u64::MAX ==> r is None && final(self)@ == old(self)@,
    {
        if self.next_id == u64::MAX {
            return None;
        }
        let id = self.next_id;
        let entry = PendingConfirmation {
            id,
            trace_id,
            operation,
            deadline: now.saturating_add(self.timeout),
        };
        self.next_id = id + 1;
        proof {
            assert(ids_below(self.pending@, self.next_id));
        }
        self.pending.push(entry);
        proof {
            let s = self.pending@;
            assert forall|a: int, b: int|
                0 <= a < s.len() && 0 <= b < s.len() && a != b implies s[a].id != s[b].id by {
                if a < s.len() - 1 && b < s.len() - 1 {
                    assert(s[a] == old(self)@.pending[a]);
                    assert(s[b] == old(self)@.pending[b]);
                } else if a < s.len() - 1 {
                    assert(s[a] == old(self)@.pending[a]);
                } else if b < s.len() - 1 {
                    assert(s[b] == old(self)@.pending[b]);
                }
            }
            assert forall|a: int| 0 <= a < s.len() implies #[trigger] s[a].id < self.next_id by {
                if a < s.len() - 1 {
                    assert(s[a] == old(self)@.pending[a]);
                }
            }
        }
        Some(id)
    }

    /// Handles the native layer's report on correlation id `id`. The pending
    /// entry ends as succeeded or failed and is returned; an id that is not
    /// pending (unknown, already resolved, timed out or withdrawn) is ignored.
    pub fn resolve(&mut self, id: u64, succeeded: bool) -> (r: Option<FinishedConfirmation>)
        requires
            old(self)@.wf(),
        ensures
            final(self)@.wf(),
            final(self)@ == old(self)@.resolved(id, succeeded),
            has_id(old(self)@.pending, id) <==> r is Some,
            r matches Some(f) ==> f == final(self)@.finished.last(),
    {
        let mut i: usize = 0;
        while i < self.pending.len()
            invariant
                0 <= i <= self.pending@.len(),
                self@ == old(self)@,
                old(self)@.wf(),
                forall|k: int| 0 <= k < i ==> self.pending@[k].id != id,
            decreases self.pending@.len() - i,
        {
            if self.pending[i].id == id {
                proof {
                    let s = self.pending@;
                    assert(has_id(s, id));
                    let j = index_of(s, id);
                    assert(s[j].id == id);
                    assert(j == i);
                    lemma_remove_keeps_wf(s, i as int, self.next_id);
                }
                let p = self.pending.remove(i);
                let f = FinishedConfirmation {
                    id: p.id,
                    trace_id: p.trace_id,
                    operation: p.operation,
                    outcome: if succeeded {
                        Outcome::Succeeded
                    } else {
                        Outcome::Failed
                    },
                };
                self.finished.push(f);
                return Some(f);
            }
            i = i + 1;
        }
        None
    }

    /// Drops the pending entry `id` without an outcome: the native layer
    /// refused the send, so no confirmation will come for it. Returns whether
    /// such an entry existed.
    pub fn withdraw(&mut self, id: u64) -> (r: bool)
        requires
            old(self)@.wf(),
        ensures
            final(self)@.wf(),
            r == has_id(old(self)@.pending, id),
            r ==> final(self)@ == (TrackerView {
                pending: old(self)@.pending.remove(index_of(old(self)@.pending, id)),
                ..old(self)@
            }),
            !r ==> final(self)@ == old(self)@,
    {
        let mut i: usize = 0;
        while i < self.pending.len()
            invariant
                0 <= i <= self.pending@.len(),
                self@ == old(self)@,
                old(self)@.wf(),
                forall|k: int| 0 <= k < i ==> self.pending@[k].id != id,
            decreases self.pending@.len() - i,
        {
            if self.pending[i].id == id {
                proof {
                    let s = self.pending@;
                    assert(has_id(s, id));
                    let j = index_of(s, id);
                    assert(s[j].id == id);
                    assert(j == i);
                    lemma_remove_keeps_wf(s, i as int, self.next_id);
                }
                self.pending.remove(i);
                return true;
            }
            i = i + 1;
        }
        false
    }

    /// Ends, as timed out, every pending confirmation whose deadline is not
    /// after `now`; returns how many ended.
    pub fn expire(&mut self, now: u64) -> (r: usize)
        requires
            old(self)@.wf(),
        ensures
            final(self)@.wf(),
            final(self)@ == old(self)@.expired_at(now),
            r == expired(old(self)@.pending, now).len(),
    {
        let ghost s = self.pending@;
        let mut kept: Vec<PendingConfirmation> = Vec::new();
        let mut timed_out: Vec<FinishedConfirmation> = Vec::new();
        let mut i: usize = 0;
        while i < self.pending.len()
            invariant
                0 <= i <= s.len(),
                self@ == old(self)@,
                s == self.pending@,
                kept@ == unexpired(s.subrange(0, i as int), now),
                timed_out@ == expired(s.subrange(0, i as int), now),
            decreases s.len() - i,
        {
            let p = self.pending[i];
            proof {
                assert(s.subrange(0, i + 1).drop_last() =~= s.subrange(0, i as int));
            }
            if now < p.deadline {
                kept.push(p);
            } else {
                timed_out.push(
                    FinishedConfirmation {
                        id: p.id,
                        trace_id: p.trace_id,
                        operation: p.operation,
                        outcome: Outcome::TimedOut,
                    },
                );
            }
            i = i + 1;
        }
        proof {
            assert(s.subrange(0, s.len() as int) =~= s);
            lemma_unexpired_wf(s, now, self.next_id);
        }
        let n = timed_out.len();
        self.pending = kept;
        self.finished.append(&mut timed_out);
        n
    }

    /// Hands out every ended confirmation and forgets it; pending entries
    /// stay as they are.
    pub fn reap(&mut self) -> (r: Vec<FinishedConfirmation>)
        requires
            old(self)@.wf(),
        ensures
            final(self)@.wf(),
            r@ == old(self)@.finished,
            final(self)@ == (TrackerView { finished: seq![], ..old(self)@ }),
    {
        let mut out: Vec<FinishedConfirmation> = Vec::new();
        std::mem::swap(&mut out, &mut self.finished);
        out
    }

    /// Ends every pending confirmation as aborted; returns how many there were.
    pub fn abort_all(&mut self) -> (r: u64)
        requires
            old(self)@.wf(),
        ensures
            final(self)@.wf(),
            r == old(self)@.pending.len(),
            final(self)@ == (TrackerView {
                pending: seq![],
                finished: old(self)@.finished + aborted(old(self)@.pending),
                ..old(self)@
            }),
    {
        let ghost s = self.pending@;
        let mut gone: Vec<FinishedConfirmation> = Vec::new();
        let mut i: usize = 0;
        while i < self.pending.len()
            invariant
                0 <= i <= s.len(),
                self@ == old(self)@,
                s == self.pending@,
                gone@ =~= aborted(s.subrange(0, i as int)),
            decreases s.len() - i,
        {
            let p = self.pending[i];
            gone.push(
                FinishedConfirmation {
                    id: p.id,
                    trace_id: p.trace_id,
                    operation: p.operation,
                    outcome: Outcome::Aborted,
                },
            );
            i = i + 1;
        }
        proof {
            assert(s.subrange(0, s.len() as int) =~= s);
        }
        let n = self.pending.len() as u64;
        self.pending = Vec::new();
        self.finished.append(&mut gone);
        n
    }

    /// The earliest deadline among the pending confirmations, if any.
    pub fn next_deadline(&self) -> (r: Option<u64>)
        ensures
            self@.pending.len() == 0 ==> r is None,
            self@.pending.len() > 0 ==> r == Some(earliest_deadline(self@.pending)),
    {
        let ghost s = self.pending@;
        let mut best: u64 = u64::MAX;
        let mut i: usize = 0;
        while i < self.pending.len()
            invariant
                0 <= i <= s.len(),
                s == self.pending@,
                best == earliest_deadline(s.subrange(0, i as int)),
            decreases s.len() - i,
        {
            proof {
                assert(s.subrange(0, i + 1).drop_last() =~= s.subrange(0, i as int));
            }
            if self.pending[i].deadline < best {
                best = self.pending[i].deadline;
            }
            i = i + 1;
        }
        proof {
            assert(s.subrange(0, s.len() as int) =~= s);
        }
        if self.pending.len() == 0 {
            None
        } else {
            Some(best)
        }
    }

    /// One step of a shutdown that drains until `drain_deadline`: entries
    /// whose own deadline passed at `now` time out; then the step is
    /// `Complete` when nothing is pending, `Aborted(n)` when the drain
    /// deadline is reached (the `n` remaining entries are aborted), and
    /// otherwise `WaitUntil(t)` with `t` the earlier of the drain deadline and
    /// the next entry deadline. It never asks to wait past the drain deadline.
    pub fn shutdown_step(&mut self, now: u64, drain_deadline: u64) -> (r: ShutdownStep)
        requires
            old(self)@.wf(),
        ensures
            final(self)@.wf(),
            (final(self)@, r) == old(self)@.shutdown_outcome(now, drain_deadline),
            r matches ShutdownStep::WaitUntil(t) ==> now < t <= drain_deadline,
            drain_deadline <= now ==> final(self)@.pending.len() == 0,
    {
        self.expire(now);
        proof {
            lemma_unexpired_members(old(self)@.pending, now);
            lemma_earliest_deadline(self@.pending);
        }
        match self.next_deadline() {
            None => ShutdownStep::Complete,
            Some(next) => {
                if drain_deadline <= now {
                    let n = self.abort_all();
                    ShutdownStep::Aborted(n)
                } else {
                    proof {
                        let s = self@.pending;
                        let j = choose|j: int|
                            0 <= j < s.len() && #[trigger] s[j].deadline == earliest_deadline(s);
                        assert(s.contains(s[j]));
                    }
                    if next < drain_deadline {
                        ShutdownStep::WaitUntil(next)
                    } else {
                        ShutdownStep::WaitUntil(drain_deadline)
                    }
                }
            },
        }
    }
}

/// A second report on a correlation id, after a first one resolved it, is
/// ignored: the tracker stays as the first report left it (the per-send
/// completion is consumed at most once).
pub proof fn lemma_resolution_at_most_once(t: TrackerView, id: u64, first: bool, second: bool)
    requires
        t.wf(),
    ensures
        !has_id(t.resolved(id, first).pending, id),
        t.resolved(id, first).resolved(id, second) == t.resolved(id, first),
        t.resolved(id, first).wf(),
{
    if has_id(t.pending, id) {
        let i = index_of(t.pending, id);
        lemma_remove_keeps_wf(t.pending, i, t.next_id);
    }
}

/// A send whose confirmation never arrives is timed out once its deadline
/// (registration instant plus the timeout) has passed: it leaves the pending
/// entries and its timed-out ending is among the finished ones.
pub proof fn lemma_unconfirmed_send_times_out(
    t: TrackerView,
    operation: Operation,
    trace_id: u32,
    sent: u64,
    now: u64,
)
    requires
        t.wf(),
        t.next_id < u64::MAX,
        sent.saturating_add(t.timeout) <= now,
    ensures
        ({
            let r = t.registered(operation, trace_id, sent);
            let e = r.expired_at(now);
            &&& !has_id(e.pending, t.next_id)
            &&& e.finished.last() == (FinishedConfirmation {
                id: t.next_id,
                trace_id,
                operation,
                outcome: Outcome::TimedOut,
            })
        }),
{
    let r = t.registered(operation, trace_id, sent);
    let s = r.pending;
    assert(s.drop_last() =~= t.pending);
    lemma_unexpired_members(s, now);
    let e = r.expired_at(now);
    if has_id(e.pending, t.next_id) {
        let k = choose|k: int| 0 <= k < e.pending.len() && #[trigger] e.pending[k].id == t.next_id;
        assert(e.pending.contains(e.pending[k]));
        let j = choose|j: int| 0 <= j < s.len() && s[j] == e.pending[k];
        if j < s.len() - 1 {
            assert(s[j] == t.pending[j]);
        }
    }
}

} // verus!
