//! The core of the client façade: which native callbacks are registered, the
//! preparation of outbound sends with their confirmation tracking, and the
//! bounded shutdown. The native calls themselves are made by the caller with
//! what these functions return.
use crate::confirmation::{
    has_id, index_of, lemma_unconfirmed_send_times_out, lemma_unexpired_members, lemma_unexpired_wf,
    ConfirmationTracker, FinishedConfirmation, Operation, Outcome, ShutdownStep, TrackerView,
};
use crate::json::json_text;
use crate::message::{
    contains_nul, encode, has_nul, steps_view, Direction, IotMessage, NativeStep,
};
use vstd::prelude::*;

verus! {

/// Which observers the consumer registered.
#[derive(Clone, Copy, Debug, PartialEq, Eq, Structural)]
pub struct Observers {
    /// connection-status observer
    pub connection_status: bool,
    /// desired-properties observer
    pub twin_desired: bool,
    /// direct-method observer
    pub direct_method: bool,
    /// incoming-message observer
    pub incoming_message: bool,
}

/// A native callback to register.
#[derive(Clone, Copy, Debug, PartialEq, Eq, Structural)]
pub enum CallbackKind {
    /// connection status changes
    ConnectionStatus,
    /// incoming (cloud-to-device) messages
    IncomingMessage,
    /// desired-properties updates
    TwinDesired,
    /// direct method invocations
    DirectMethod,
}

/// The callbacks to register for the observers `o`, in this order:
/// connection status, incoming messages, desired properties, direct methods;
/// only those with an observer.
pub open spec fn spec_callback_plan(o: Observers) -> Seq<CallbackKind> {
    (if o.connection_status {
        seq![CallbackKind::ConnectionStatus]
    } else {
        seq![]
    }) + (if o.incoming_message {
        seq![CallbackKind::IncomingMessage]
    } else {
        seq![]
    }) + (if o.twin_desired {
        seq![CallbackKind::TwinDesired]
    } else {
        seq![]
    }) + (if o.direct_method {
        seq![CallbackKind::DirectMethod]
    } else {
        seq![]
    })
}

/// The native callbacks to register for the observers `o` (see `spec_callback_plan`).
pub fn callback_plan(o: Observers) -> (r: Vec<CallbackKind>)
    ensures
        r@ == spec_callback_plan(o),
{
    let mut v: Vec<CallbackKind> = Vec::new();
    if o.connection_status {
        v.push(CallbackKind::ConnectionStatus);
    }
    if o.incoming_message {
        v.push(CallbackKind::IncomingMessage);
    }
    if o.twin_desired {
        v.push(CallbackKind::TwinDesired);
    }
    if o.direct_method {
        v.push(CallbackKind::DirectMethod);
    }
    proof {
        assert(v@ =~= spec_callback_plan(o));
    }
    v
}

/// Error of a façade operation, reported to the caller at once.
#[derive(Clone, Copy, Debug, PartialEq, Eq, Structural)]
pub enum ClientError {
    /// a text to hand to the native layer holds a NUL character
    InvalidText,
    /// every correlation id has been used
    CorrelationIdsExhausted,
    /// a full twin was asked for without a desired-properties observer
    TwinObserverMissing,
}

/// A telemetry message ready to be handed to the native layer.
#[derive(Debug)]
pub struct D2cSubmission {
    /// correlation id to hand to the native layer as the callback's context
    pub correlation_id: u64,
    /// diagnostic trace id
    pub trace_id: u32,
    /// the native calls that fill the message handle
    pub steps: Vec<NativeStep>,
    /// the output queue
    pub queue: String,
    /// confirmations that ended since the last send, reaped on the way
    pub reaped: Vec<FinishedConfirmation>,
}

/// A reported state ready to be handed to the native layer.
#[derive(Debug)]
pub struct ReportSubmission {
    /// correlation id to hand to the native layer as the callback's context
    pub correlation_id: u64,
    /// diagnostic trace id
    pub trace_id: u32,
    /// the JSON text of the reported properties
    pub payload: String,
    /// confirmations that ended since the last send, reaped on the way
    pub reaped: Vec<FinishedConfirmation>,
}

/// The abstract façade core.
pub ghost struct ClientState {
    pub observers: Observers,
    pub tracker: TrackerView,
}

/// The façade core: the registered observers and the confirmation tracker.
pub struct ClientCore {
    observers: Observers,
    tracker: ConfirmationTracker,
}

impl View for ClientCore {
    type V = ClientState;

    closed spec fn view(&self) -> ClientState {
        ClientState { observers: self.observers, tracker: self.tracker@ }
    }
}

/// The tracker after the opportunistic drain at `now`: timed-out entries end,
/// and every ended entry is handed out.
pub open spec fn drained(t: TrackerView, now: u64) -> TrackerView {
    TrackerView { finished: seq![], ..t.expired_at(now) }
}

/// Milliseconds in `secs` seconds, saturating.
pub open spec fn secs_to_ms(secs: u64) -> u64 {
    if secs * 1000 > u64::MAX {
        u64::MAX
    } else {
        (secs * 1000) as u64
    }
}

impl ClientCore {
    /// The well-formedness of the core.
    pub open spec fn wf(&self) -> bool {
        self@.tracker.wf()
    }

    /// A core for the observers `observers` whose confirmations are waited
    /// for `confirmation_timeout_secs` seconds.
    pub fn new(observers: Observers, confirmation_timeout_secs: u64) -> (r: Self)
        ensures
            r.wf(),
            r@.observers == observers,
            r@.tracker == (TrackerView {
                timeout: secs_to_ms(confirmation_timeout_secs),
                next_id: 0,
                pending: seq![],
                finished: seq![],
            }),
    {
        let ms = match confirmation_timeout_secs.checked_mul(1000) {
            Some(v) => v,
            None => u64::MAX,
        };
        ClientCore { observers, tracker: ConfirmationTracker::new(ms) }
    }

    /// The registered observers.
    pub fn observers(&self) -> (r: Observers)
        ensures
            r == self@.observers,
    {
        self.observers
    }

    /// The confirmation tracker.
    pub fn tracker(&self) -> (r: &ConfirmationTracker)
        ensures
            r@ == self@.tracker,
    {
        &self.tracker
    }

    fn drain(&mut self, now: u64) -> (r: Vec<FinishedConfirmation>)
        requires
            old(self).wf(),
        ensures
            final(self).wf(),
            r@ == old(self)@.tracker.expired_at(now).finished,
            final(self)@ == (ClientState { tracker: drained(old(self)@.tracker, now), ..old(self)@ }),
    {
        self.tracker.expire(now);
        self.tracker.reap()
    }

    /// Prepares a telemetry message sent at `now` under the diagnostic trace
    /// id `trace_id`. When the correlation ids are used up it fails and
    /// changes nothing. Otherwise ended confirmations are reaped (timed-out
    /// entries end first) and handed back, and the send is registered for
    /// confirmation under the next correlation id.
    pub fn prepare_d2c_message(&mut self, message: &IotMessage, trace_id: u32, now: u64) -> (r:
        Result<D2cSubmission, ClientError>)
        requires
            old(self).wf(),
            message@.direction == Direction::Outgoing,
        ensures
            final(self).wf(),
            old(self)@.tracker.next_id == u64::MAX ==> r == Err::<D2cSubmission, ClientError>(
                ClientError::CorrelationIdsExhausted,
            ) && final(self)@ == old(self)@,
            old(self)@.tracker.next_id < u64::MAX ==> (r matches Ok(s) && s.correlation_id
                == old(self)@.tracker.next_id && s.trace_id == trace_id && steps_view(s.steps@)
                == encode(message@) && s.queue@ == message@.output_queue && s.reaped@ == old(self)@.tracker.expired_at(now).finished
                && final(self)@ == (ClientState {
                tracker: drained(old(self)@.tracker, now).registered(
                    Operation::D2cMessage,
                    trace_id,
                    now,
                ),
                ..old(self)@
            })),
    {
        if self.tracker.next_id() == u64::MAX {
            return Err(ClientError::CorrelationIdsExhausted);
        }
        let reaped = self.drain(now);
        match self.tracker.register(Operation::D2cMessage, trace_id, now) {
            Some(id) => Ok(
                D2cSubmission {
                    correlation_id: id,
                    trace_id,
                    steps: message.native_steps(),
                    queue: message.output_queue().clone(),
                    reaped,
                },
            ),
            None => Err(ClientError::CorrelationIdsExhausted),
        }
    }

    /// Prepares a telemetry message sent at `now` with a random diagnostic
    /// trace id (see `prepare_d2c_message`).
    pub fn send_d2c_message(&mut self, message: &IotMessage, now: u64) -> (r: Result<
        D2cSubmission,
        ClientError,
    >)
        requires
            old(self).wf(),
            message@.direction == Direction::Outgoing,
        ensures
            final(self).wf(),
            old(self)@.tracker.next_id == u64::MAX ==> r == Err::<D2cSubmission, ClientError>(
                ClientError::CorrelationIdsExhausted,
            ) && final(self)@ == old(self)@,
            old(self)@.tracker.next_id < u64::MAX ==> (r matches Ok(s) && s.correlation_id
                == old(self)@.tracker.next_id && steps_view(s.steps@) == encode(message@)
                && s.queue@ == message@.output_queue && s.reaped@ == old(self)@.tracker.expired_at(now).finished
                && final(self)@ == (ClientState {
                tracker: drained(old(self)@.tracker, now).registered(
                    Operation::D2cMessage,
                    s.trace_id,
                    now,
                ),
                ..old(self)@
            })),
    {
        let trace_id: u32 = rand::random::<u32>();
        self.prepare_d2c_message(message, trace_id, now)
    }

    /// Prepares the report of the reported-properties text `text` at `now`
    /// under the trace id `trace_id`. A text holding a NUL character fails
    /// with `InvalidText`, and used-up correlation ids fail with
    /// `CorrelationIdsExhausted`; both change nothing. Otherwise ended
    /// confirmations are reaped and handed back, and the report is
    /// registered under the next correlation id.
    pub fn prepare_report(&mut self, text: String, trace_id: u32, now: u64) -> (r: Result<
        ReportSubmission,
        ClientError,
    >)
        requires
            old(self).wf(),
        ensures
            final(self).wf(),
            has_nul(text@) ==> r == Err::<ReportSubmission, ClientError>(ClientError::InvalidText)
                && final(self)@ == old(self)@,
            !has_nul(text@) && old(self)@.tracker.next_id == u64::MAX ==> r == Err::<
                ReportSubmission,
                ClientError,
            >(ClientError::CorrelationIdsExhausted) && final(self)@ == old(self)@,
            !has_nul(text@) && old(self)@.tracker.next_id < u64::MAX ==> (r matches Ok(s)
                && s.correlation_id == old(self)@.tracker.next_id && s.trace_id == trace_id
                && s.payload@ == text@ && s.reaped@ == old(self)@.tracker.expired_at(now).finished
                && final(self)@ == (ClientState {
                tracker: drained(old(self)@.tracker, now).registered(
                    Operation::ReportedState,
                    trace_id,
                    now,
                ),
                ..old(self)@
            })),
    {
        if contains_nul(text.as_str()) {
            return Err(ClientError::InvalidText);
        }
        if self.tracker.next_id() == u64::MAX {
            return Err(ClientError::CorrelationIdsExhausted);
        }
        let reaped = self.drain(now);
        match self.tracker.register(Operation::ReportedState, trace_id, now) {
            Some(id) => Ok(
                ReportSubmission { correlation_id: id, trace_id, payload: text, reaped },
            ),
            None => Err(ClientError::CorrelationIdsExhausted),
        }
    }

    /// Prepares the report of the reported properties `reported` at `now`,
    /// with their JSON text (which never holds a NUL character) and a random
    /// trace id (see `prepare_report`): it succeeds exactly when correlation
    /// ids are left.
    pub fn twin_report(&mut self, reported: &serde_json::Value, now: u64) -> (r: Result<
        ReportSubmission,
        ClientError,
    >)
        requires
            old(self).wf(),
        ensures
            final(self).wf(),
            old(self)@.tracker.next_id == u64::MAX ==> r == Err::<ReportSubmission, ClientError>(
                ClientError::CorrelationIdsExhausted,
            ) && final(self)@ == old(self)@,
            old(self)@.tracker.next_id < u64::MAX ==> (r matches Ok(s) && s.correlation_id
                == old(self)@.tracker.next_id && !has_nul(s.payload@) && s.reaped@ == old(self)@.tracker.expired_at(now).finished
                && final(self)@ == (ClientState {
                tracker: drained(old(self)@.tracker, now).registered(
                    Operation::ReportedState,
                    s.trace_id,
                    now,
                ),
                ..old(self)@
            })),
    {
        let trace_id: u32 = rand::random::<u32>();
        self.prepare_report(json_text(reported), trace_id, now)
    }

    /// Checks that a full twin can be asked for: the result arrives through
    /// the desired-properties observer, so one must be registered.
    pub fn twin_request(&self) -> (r: Result<(), ClientError>)
        ensures
            self@.observers.twin_desired ==> r is Ok,
            !self@.observers.twin_desired ==> r == Err::<(), ClientError>(
                ClientError::TwinObserverMissing,
            ),
    {
        if self.observers.twin_desired {
            Ok(())
        } else {
            Err(ClientError::TwinObserverMissing)
        }
    }

    /// The native layer's confirmation on `correlation_id` (see
    /// `ConfirmationTracker::resolve`).
    pub fn confirm(&mut self, correlation_id: u64, succeeded: bool) -> (r: Option<
        FinishedConfirmation,
    >)
        requires
            old(self).wf(),
        ensures
            final(self).wf(),
            final(self)@ == (ClientState {
                tracker: old(self)@.tracker.resolved(correlation_id, succeeded),
                ..old(self)@
            }),
            r is Some <==> crate::confirmation::has_id(old(self)@.tracker.pending, correlation_id),
    {
        self.tracker.resolve(correlation_id, succeeded)
    }

    /// The native layer refused the send registered under `correlation_id`:
    /// it is no longer awaited (see `ConfirmationTracker::withdraw`).
    pub fn submission_failed(&mut self, correlation_id: u64) -> (r: bool)
        requires
            old(self).wf(),
        ensures
            final(self).wf(),
            r == crate::confirmation::has_id(old(self)@.tracker.pending, correlation_id),
            r ==> final(self)@ == (ClientState {
                tracker: TrackerView {
                    pending: old(self)@.tracker.pending.remove(
                        crate::confirmation::index_of(old(self)@.tracker.pending, correlation_id),
                    ),
                    ..old(self)@.tracker
                },
                ..old(self)@
            }),
            !r ==> final(self)@ == old(self)@,
    {
        self.tracker.withdraw(correlation_id)
    }

    /// Hands out the ended confirmations (see `ConfirmationTracker::reap`).
    pub fn reap(&mut self) -> (r: Vec<FinishedConfirmation>)
        requires
            old(self).wf(),
        ensures
            final(self).wf(),
            r@ == old(self)@.tracker.finished,
            final(self)@ == (ClientState {
                tracker: TrackerView { finished: seq![], ..old(self)@.tracker },
                ..old(self)@
            }),
    {
        self.tracker.reap()
    }

    /// The drain deadline of a shutdown that starts at `now` and waits at
    /// most `drain_timeout_ms` for pending confirmations.
    pub fn shutdown_deadline(now: u64, drain_timeout_ms: u64) -> (r: u64)
        ensures
            r == now.saturating_add(drain_timeout_ms),
    {
        now.saturating_add(drain_timeout_ms)
    }

    /// One shutdown step, exactly as `ConfirmationTracker::shutdown_step`
    /// (see `TrackerView::shutdown_outcome`): it never asks to wait past the
    /// drain deadline, and once the deadline is reached nothing is pending
    /// any more.
    pub fn shutdown_step(&mut self, now: u64, drain_deadline: u64) -> (r: ShutdownStep)
        requires
            old(self).wf(),
        ensures
            final(self).wf(),
            final(self)@.observers == old(self)@.observers,
            (final(self)@.tracker, r) == old(self)@.tracker.shutdown_outcome(now, drain_deadline),
            r matches ShutdownStep::WaitUntil(t) ==> now < t <= drain_deadline,
            drain_deadline <= now ==> final(self)@.tracker.pending.len() == 0,
            r == ShutdownStep::Complete ==> final(self)@.tracker.pending.len() == 0,
    {
        self.tracker.shutdown_step(now, drain_deadline)
    }
}

proof fn lemma_drained_wf(t: TrackerView, now: u64)
    requires
        t.wf(),
    ensures
        drained(t, now).wf(),
        drained(t, now).next_id == t.next_id,
        drained(t, now).timeout == t.timeout,
{
    lemma_unexpired_wf(t.pending, now, t.next_id);
}

/// A telemetry message sent at `sent` whose confirmation never arrives is
/// handed out as timed out by the next send prepared at any `now` from its
/// deadline on, and is then no longer tracked.
pub proof fn lemma_unconfirmed_send_reaped_as_timed_out(
    t: TrackerView,
    trace_id: u32,
    sent: u64,
    now: u64,
)
    requires
        t.wf(),
        t.next_id < u64::MAX,
        sent.saturating_add(t.timeout) <= now,
    ensures
        ({
            let after_send = drained(t, sent).registered(Operation::D2cMessage, trace_id, sent);
            &&& after_send.expired_at(now).finished.contains(
                FinishedConfirmation {
                    id: t.next_id,
                    trace_id,
                    operation: Operation::D2cMessage,
                    outcome: Outcome::TimedOut,
                },
            )
            &&& !has_id(drained(after_send, now).pending, t.next_id)
        }),
{
    let d = drained(t, sent);
    lemma_drained_wf(t, sent);
    lemma_unconfirmed_send_times_out(d, Operation::D2cMessage, trace_id, sent, now);
    let e = d.registered(Operation::D2cMessage, trace_id, sent).expired_at(now);
    assert(e.finished.len() > 0);
    assert(e.finished[e.finished.len() - 1] == e.finished.last());
}

/// A telemetry message sent at `sent` and confirmed as delivered ends as
/// succeeded; the next send, prepared at any `now`, hands it out, and it is
/// then no longer tracked.
pub proof fn lemma_confirmed_send_reaped(t: TrackerView, trace_id: u32, sent: u64, now: u64)
    requires
        t.wf(),
        t.next_id < u64::MAX,
    ensures
        ({
            let after_send = drained(t, sent).registered(Operation::D2cMessage, trace_id, sent);
            let confirmed = after_send.resolved(t.next_id, true);
            &&& confirmed.expired_at(now).finished.contains(
                FinishedConfirmation {
                    id: t.next_id,
                    trace_id,
                    operation: Operation::D2cMessage,
                    outcome: Outcome::Succeeded,
                },
            )
            &&& !has_id(drained(confirmed, now).pending, t.next_id)
        }),
{
    let d = drained(t, sent);
    lemma_drained_wf(t, sent);
    let r = d.registered(Operation::D2cMessage, trace_id, sent);
    let last = r.pending.len() - 1;
    assert(r.pending[last].id == t.next_id);
    assert(has_id(r.pending, t.next_id));
    let i = index_of(r.pending, t.next_id);
    if i != last {
        assert(r.pending[i] == d.pending[i]);
    }
    assert(i == last);
    let c = r.resolved(t.next_id, true);
    assert(r.pending.remove(i) =~= d.pending);
    let f = FinishedConfirmation {
        id: t.next_id,
        trace_id,
        operation: Operation::D2cMessage,
        outcome: Outcome::Succeeded,
    };
    assert(c.finished.last() == f);
    let fin = c.expired_at(now).finished;
    assert(fin[c.finished.len() - 1] == f);
    lemma_unexpired_members(c.pending, now);
    let p = drained(c, now).pending;
    if has_id(p, t.next_id) {
        let k = choose|k: int| 0 <= k < p.len() && #[trigger] p[k].id == t.next_id;
        assert(p.contains(p[k]));
        let j = choose|j: int| 0 <= j < d.pending.len() && d.pending[j] == p[k];
        assert(d.pending[j].id < d.next_id);
    }
}

} // verus!
