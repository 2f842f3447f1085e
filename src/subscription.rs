//! The subscription protocol: turns a pull-based computation into a stream
//! of strongly consistent snapshots pushed to a consumer. The decisions are
//! taken here, as a function from state and event to next state and action;
//! the host performs each action and reports what happened as an event.
use vstd::prelude::*;
use crate::entrypoints::{convert_entrypoints, is_entrypoints_conversion, middleware_convertible, ConversionError, Entrypoints, NapiEntrypoints};
use crate::options::{EntrypointsOptions, NapiEntrypointsOptions};

verus! {

/// Where a subscription stands in its cycle.
#[derive(Clone, Copy, PartialEq, Eq, Structural, Debug)]
pub enum Phase {
    /// Created, not started yet.
    Idle,
    /// A strongly consistent evaluation is in flight.
    Evaluating,
    /// A result is being handed to the consumer.
    Delivering,
    /// Waiting for the computation to be invalidated.
    Waiting,
    /// Cancelled; its registration with the engine is released.
    Released,
}

/// What the host reports to a subscription.
#[derive(Clone, Copy, PartialEq, Eq, Structural, Debug)]
pub enum Event {
    /// The consumer opened the subscription.
    Start,
    /// A graph mutation completed; `revision` is the engine's revision
    /// after it.
    Mutated { revision: u64 },
    /// The strongly consistent evaluation finished at `revision`, with a
    /// value (`ok`) or an error.
    Evaluated { revision: u64, ok: bool },
    /// The last delivery was handed to the consumer.
    Handed,
    /// The consumer or the session cancelled the subscription.
    Cancel,
}

/// What the host is to do next.
#[derive(Clone, Copy, PartialEq, Eq, Structural, Debug)]
pub enum Action {
    /// Register the computation, if not done yet, and evaluate it strongly
    /// consistently, at a revision no older than `at_least`.
    Evaluate { at_least: u64 },
    /// Convert the value evaluated at `revision` and hand it to the consumer.
    Deliver { revision: u64 },
    /// Hand the error of the evaluation at `revision` to the consumer.
    DeliverError { revision: u64 },
    /// Wait for the computation to be invalidated.
    AwaitInvalidation,
    /// Release the computation's registration with the engine.
    Release,
    /// Nothing to do.
    Nothing,
}

/// The state of one subscription.
#[derive(Clone, Copy, PartialEq, Eq, Structural, Debug)]
pub struct Subscription {
    pub phase: Phase,
    /// The newest revision reported by a mutation.
    pub known_revision: u64,
    /// The revision the current evaluation was asked to reach.
    pub requested_revision: u64,
    /// The revision of the last value or error handed to the consumer.
    pub delivered_revision: Option<u64>,
    /// A cancellation arrived while work was in flight.
    pub cancel_requested: bool,
}

/// The larger of two revisions.
pub open spec fn max_revision(a: u64, b: u64) -> u64 {
    if a >= b { a } else { b }
}

/// The revision of the last delivery, or zero where there was none.
pub open spec fn delivered_or_zero(s: Subscription) -> u64 {
    match s.delivered_revision {
        Some(d) => d,
        None => 0,
    }
}

/// The state a subscription moves to, and the action it asks for, on an
/// event.
pub open spec fn next(s: Subscription, e: Event) -> (Subscription, Action) {
    if s.phase == Phase::Released {
        (s, Action::Nothing)
    } else {
        match e {
            Event::Cancel => if s.phase == Phase::Evaluating || s.phase == Phase::Delivering {
                (Subscription { cancel_requested: true, ..s }, Action::Nothing)
            } else if s.phase == Phase::Waiting {
                (Subscription { phase: Phase::Released, ..s }, Action::Release)
            } else {
                (Subscription { phase: Phase::Released, ..s }, Action::Nothing)
            },
            Event::Mutated { revision } => {
                let known = max_revision(s.known_revision, revision);
                if s.phase == Phase::Waiting && revision > delivered_or_zero(s) {
                    (
                        Subscription {
                            phase: Phase::Evaluating,
                            known_revision: known,
                            requested_revision: known,
                            ..s
                        },
                        Action::Evaluate { at_least: known },
                    )
                } else {
                    (Subscription { known_revision: known, ..s }, Action::Nothing)
                }
            },
            Event::Start => if s.phase == Phase::Idle {
                (
                    Subscription {
                        phase: Phase::Evaluating,
                        requested_revision: s.known_revision,
                        ..s
                    },
                    Action::Evaluate { at_least: s.known_revision },
                )
            } else {
                (s, Action::Nothing)
            },
            Event::Evaluated { revision, ok } => if s.phase != Phase::Evaluating {
                (s, Action::Nothing)
            } else if s.cancel_requested {
                (Subscription { phase: Phase::Released, ..s }, Action::Release)
            } else if revision < s.requested_revision {
                (
                    Subscription { requested_revision: s.known_revision, ..s },
                    Action::Evaluate { at_least: s.known_revision },
                )
            } else {
                (
                    Subscription {
                        phase: Phase::Delivering,
                        delivered_revision: Some(revision),
                        ..s
                    },
                    if ok {
                        Action::Deliver { revision }
                    } else {
                        Action::DeliverError { revision }
                    },
                )
            },
            Event::Handed => if s.phase != Phase::Delivering {
                (s, Action::Nothing)
            } else if s.cancel_requested {
                (Subscription { phase: Phase::Released, ..s }, Action::Release)
            } else if s.known_revision > delivered_or_zero(s) {
                (
                    Subscription {
                        phase: Phase::Evaluating,
                        requested_revision: s.known_revision,
                        ..s
                    },
                    Action::Evaluate { at_least: s.known_revision },
                )
            } else {
                (Subscription { phase: Phase::Waiting, ..s }, Action::AwaitInvalidation)
            },
        }
    }
}

impl Subscription {
    /// The invariant of a subscription's state.
    pub open spec fn wf(&self) -> bool {
        &&& self.requested_revision <= self.known_revision
        &&& self.phase == Phase::Idle ==> self.delivered_revision.is_none() && !self.cancel_requested
        &&& self.phase == Phase::Evaluating ==> delivered_or_zero(*self) <= self.requested_revision
        &&& self.phase == Phase::Delivering ==> self.delivered_revision.is_some()
            && self.requested_revision <= delivered_or_zero(*self)
        &&& self.phase == Phase::Waiting ==> self.delivered_revision.is_some()
            && self.known_revision <= delivered_or_zero(*self) && !self.cancel_requested
    }

    /// A subscription that has not started.
    pub fn new() -> (r: Subscription)
        ensures
            r.wf(),
            r.phase == Phase::Idle,
            r.known_revision == 0,
            r.delivered_revision.is_none(),
            !r.cancel_requested,
    {
        Subscription {
            phase: Phase::Idle,
            known_revision: 0,
            requested_revision: 0,
            delivered_revision: None,
            cancel_requested: false,
        }
    }

    /// Takes an event and returns the action it calls for.
    pub fn step(&mut self, event: Event) -> (r: Action)
        requires
            old(self).wf(),
        ensures
            final(self).wf(),
            (*final(self), r) == next(*old(self), event),
    {
        proof {
            lemma_next_preserves_wf(*self, event);
        }
        if self.phase == Phase::Released {
            return Action::Nothing;
        }
        match event {
            Event::Cancel => {
                if self.phase == Phase::Evaluating || self.phase == Phase::Delivering {
                    self.cancel_requested = true;
                    Action::Nothing
                } else if self.phase == Phase::Waiting {
                    self.phase = Phase::Released;
                    Action::Release
                } else {
                    self.phase = Phase::Released;
                    Action::Nothing
                }
            },
            Event::Mutated { revision } => {
                let known = if self.known_revision >= revision {
                    self.known_revision
                } else {
                    revision
                };
                let delivered = match self.delivered_revision {
                    Some(d) => d,
                    None => 0,
                };
                self.known_revision = known;
                if self.phase == Phase::Waiting && revision > delivered {
                    self.phase = Phase::Evaluating;
                    self.requested_revision = known;
                    Action::Evaluate { at_least: known }
                } else {
                    Action::Nothing
                }
            },
            Event::Start => {
                if self.phase == Phase::Idle {
                    self.phase = Phase::Evaluating;
                    self.requested_revision = self.known_revision;
                    Action::Evaluate { at_least: self.known_revision }
                } else {
                    Action::Nothing
                }
            },
            Event::Evaluated { revision, ok } => {
                if self.phase != Phase::Evaluating {
                    Action::Nothing
                } else if self.cancel_requested {
                    self.phase = Phase::Released;
                    Action::Release
                } else if revision < self.requested_revision {
                    self.requested_revision = self.known_revision;
                    Action::Evaluate { at_least: self.known_revision }
                } else {
                    self.phase = Phase::Delivering;
                    self.delivered_revision = Some(revision);
                    if ok {
                        Action::Deliver { revision }
                    } else {
                        Action::DeliverError { revision }
                    }
                }
            },
            Event::Handed => {
                let delivered = match self.delivered_revision {
                    Some(d) => d,
                    None => 0,
                };
                if self.phase != Phase::Delivering {
                    Action::Nothing
                } else if self.cancel_requested {
                    self.phase = Phase::Released;
                    Action::Release
                } else if self.known_revision > delivered {
                    self.phase = Phase::Evaluating;
                    self.requested_revision = self.known_revision;
                    Action::Evaluate { at_least: self.known_revision }
                } else {
                    self.phase = Phase::Waiting;
                    Action::AwaitInvalidation
                }
            },
        }
    }
}

/// Every step keeps the invariant.
pub proof fn lemma_next_preserves_wf(s: Subscription, e: Event)
    requires
        s.wf(),
    ensures
        next(s, e).0.wf(),
{
}

/// The revision of a delivery action, if the action delivers.
pub open spec fn delivered_by(a: Action) -> Option<u64> {
    match a {
        Action::Deliver { revision } => Some(revision),
        Action::DeliverError { revision } => Some(revision),
        _ => None,
    }
}

/// Strong consistency: the known revision of a live subscription covers
/// every mutation reported to it, and it never goes back; every evaluation it asks
/// for must reach the newest of them; and it delivers only a result that
/// reached the revision asked for, so no delivery reflects a state older
/// than the mutations reported before its evaluation was requested.
pub proof fn lemma_strong_consistency(s: Subscription, e: Event)
    requires
        s.wf(),
    ensures
        next(s, e).0.known_revision >= s.known_revision,
        (match e {
            Event::Mutated { revision } => s.phase != Phase::Released ==> next(s, e).0.known_revision
                >= revision,
            _ => true,
        }),
        (match next(s, e).1 {
            Action::Evaluate { at_least } => at_least == next(s, e).0.known_revision
                && at_least == next(s, e).0.requested_revision,
            _ => true,
        }),
        delivered_by(next(s, e).1).is_some() ==> s.phase == Phase::Evaluating && (match e {
            Event::Evaluated { revision, .. } => delivered_by(next(s, e).1) == Some(revision)
                && revision >= s.requested_revision,
            _ => false,
        }),
{
}

/// The state after a sequence of events.
pub open spec fn run(s: Subscription, events: Seq<Event>) -> Subscription
    decreases events.len(),
{
    if events.len() == 0 {
        s
    } else {
        next(run(s, events.drop_last()), events.last()).0
    }
}

/// Every sequence of events keeps the invariant.
pub proof fn lemma_run_preserves_wf(s: Subscription, events: Seq<Event>)
    requires
        s.wf(),
    ensures
        run(s, events).wf(),
    decreases events.len(),
{
    if events.len() > 0 {
        lemma_run_preserves_wf(s, events.drop_last());
        lemma_next_preserves_wf(run(s, events.drop_last()), events.last());
    }
}

proof fn lemma_known_monotone(s: Subscription, events: Seq<Event>, j: int)
    requires
        0 <= j <= events.len(),
    ensures
        run(s, events).known_revision >= run(s, events.take(j)).known_revision,
    decreases events.len(),
{
    if j == events.len() {
        assert(events.take(j) =~= events);
    } else {
        assert(events.drop_last().take(j) =~= events.take(j));
        lemma_known_monotone(s, events.drop_last(), j);
    }
}

/// Strong consistency over a run: once a mutation has been reported to a
/// live subscription, every later delivery reflects it, or the subscription
/// evaluates again, at least at the newest revision it knows, as soon as
/// that delivery has been handed over.
pub proof fn lemma_delivery_reflects_reported_mutations(
    s: Subscription,
    events: Seq<Event>,
    j: int,
    mutation: u64,
    e: Event,
)
    requires
        s.wf(),
        0 <= j < events.len(),
        events[j] == (Event::Mutated { revision: mutation }),
        run(s, events.take(j)).phase != Phase::Released,
        delivered_by(next(run(s, events), e).1).is_some(),
    ensures
        delivered_by(next(run(s, events), e).1).unwrap() >= mutation || next(
            next(run(s, events), e).0,
            Event::Handed,
        ).1 == (Action::Evaluate { at_least: run(s, events).known_revision }),
        run(s, events).known_revision >= mutation,
{
    let before = events.take(j);
    let after = events.take(j + 1);
    assert(after.drop_last() =~= before);
    assert(after.last() == events[j]);
    lemma_known_monotone(s, events, j + 1);
    lemma_run_preserves_wf(s, events);
}

/// Deliveries come in order: each reflects a revision no older than the
/// one before it, and none is started while another is being handed over.
pub proof fn lemma_deliveries_ordered(s: Subscription, e: Event)
    requires
        s.wf(),
    ensures
        delivered_by(next(s, e).1).is_some() ==> s.phase != Phase::Delivering
            && delivered_by(next(s, e).1).unwrap() >= delivered_or_zero(s),
        delivered_by(next(s, e).1).is_some() ==> next(s, e).0.phase == Phase::Delivering,
{
}

/// Changes that arrive while an evaluation or a delivery is in flight are
/// coalesced: they start no new evaluation then; the newest of them is
/// evaluated once the delivery has been handed over.
pub proof fn lemma_coalescing(s: Subscription, revision: u64)
    requires
        s.wf(),
        s.phase == Phase::Evaluating || s.phase == Phase::Delivering,
    ensures
        next(s, Event::Mutated { revision }).1 == Action::Nothing,
        next(s, Event::Mutated { revision }).0.phase == s.phase,
        s.phase == Phase::Delivering && !s.cancel_requested && next(
            s,
            Event::Mutated { revision },
        ).0.known_revision > delivered_or_zero(s) ==> next(
            next(s, Event::Mutated { revision }).0,
            Event::Handed,
        ).1 == (Action::Evaluate { at_least: next(s, Event::Mutated { revision }).0.known_revision }),
{
}

/// After a cancellation, no evaluation and no delivery is ever asked for
/// again, and the registration is released once work in flight ends.
pub proof fn lemma_cancellation(s: Subscription, e: Event)
    requires
        s.wf(),
        s.cancel_requested || s.phase == Phase::Released,
    ensures
        next(s, e).0.cancel_requested || next(s, e).0.phase == Phase::Released,
        !(next(s, e).1 is Evaluate),
        delivered_by(next(s, e).1).is_none(),
{
}

/// An evaluation error is delivered like a value, and the subscription goes
/// on: it waits for the next invalidation and evaluates again after it.
pub proof fn lemma_errors_delivered(s: Subscription, revision: u64)
    requires
        s.wf(),
        s.phase == Phase::Evaluating,
        !s.cancel_requested,
        revision >= s.requested_revision,
    ensures
        next(s, Event::Evaluated { revision, ok: false }).1 == (Action::DeliverError { revision }),
        next(s, Event::Evaluated { revision, ok: false }).0.phase == Phase::Delivering,
{
}

/// A subscription to the entrypoints of a project: the options it was
/// opened with, the session that owns the endpoints it hands out, and its
/// state.
pub struct EntrypointsSubscription {
    pub session: u64,
    pub options: EntrypointsOptions,
    pub state: Subscription,
}

/// Opens a subscription to the entrypoints of a project in session
/// `session`, with the given options. It has not started yet.
pub fn project_entrypoints_subscribe(session: u64, options: NapiEntrypointsOptions) -> (r:
    EntrypointsSubscription)
    ensures
        r.session == session,
        r.options.page_extensions@ == options.page_extensions@,
        r.state.wf(),
        r.state.phase == Phase::Idle,
        r.state.known_revision == 0,
        r.state.delivered_revision.is_none(),
        !r.state.cancel_requested,
{
    EntrypointsSubscription { session, options: options.into(), state: Subscription::new() }
}

impl EntrypointsSubscription {
    /// Takes an event and returns the action it calls for.
    pub fn step(&mut self, event: Event) -> (r: Action)
        requires
            old(self).state.wf(),
        ensures
            final(self).state.wf(),
            (final(self).state, r) == next(old(self).state, event),
            final(self).session == old(self).session,
            final(self).options == old(self).options,
    {
        self.state.step(event)
    }

    /// Converts an evaluated snapshot into the values to deliver.
    pub fn convert(&self, snapshot: &Entrypoints) -> (r: Result<Vec<NapiEntrypoints>, ConversionError>)
        ensures
            r.is_ok() <==> middleware_convertible(snapshot.middleware),
            r.is_err() ==> r == Err::<Vec<NapiEntrypoints>, _>(ConversionError::UnknownRuntime),
            r.is_ok() ==> r.unwrap()@.len() == 1 && is_entrypoints_conversion(
                r.unwrap()@[0],
                *snapshot,
                self.session,
            ),
    {
        convert_entrypoints(snapshot, self.session)
    }
}

} // verus!
