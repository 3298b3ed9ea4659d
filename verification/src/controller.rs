//! The poll loop's state machine.
//!
//! The controller advances one transition at a time: given the current
//! phase and the event that ended the previous batch of hardware actions,
//! it returns the next phase and the next batch. The driver performs the
//! batch in order and reports the one result it produced. A full cycle is
//! `Idle -> AwaitWake -> (no card -> Idle | AwaitSelect) -> (failure or
//! unsupported identifier -> Idle | AwaitAuth) -> (AwaitOp ->)? Idle`, and
//! every return to `Idle` ends with the inter-poll delay.

use vstd::prelude::*;

use crate::actions::Action;
use crate::config::{Config, ConfigV};
use crate::identifier::{authorized, classify, is_authorized, supported_len, CardIdentifier};
use crate::sequencer::{actuation_cycle, actuation_seq, failure_indication, indication_seq};
use crate::session::{cleanup_seq, op_seq, session_op};

verus! {

/// Where the poll loop stands between two batches of actions.
#[derive(Debug, Clone, PartialEq, Eq)]
pub enum Phase {
    /// The previous cycle is complete; the next batch polls the reader.
    Idle,
    /// A wake-up request is out; awaiting whether a card responded.
    AwaitWake,
    /// A card responded; awaiting the raw identifier bytes.
    AwaitSelect,
    /// A supported identifier was resolved; awaiting the authentication
    /// outcome of the target sector.
    AwaitAuth { id: CardIdentifier },
    /// Authentication succeeded; awaiting the outcome of the session's one
    /// data operation.
    AwaitOp { id: CardIdentifier },
}

/// Mathematical image of a `Phase`: the carried identifier as its bytes.
pub enum PhaseV {
    Idle,
    AwaitWake,
    AwaitSelect,
    AwaitAuth { id: Seq<u8> },
    AwaitOp { id: Seq<u8> },
}

impl View for Phase {
    type V = PhaseV;

    open spec fn view(&self) -> PhaseV {
        match self {
            Phase::Idle => PhaseV::Idle,
            Phase::AwaitWake => PhaseV::AwaitWake,
            Phase::AwaitSelect => PhaseV::AwaitSelect,
            Phase::AwaitAuth { id } => PhaseV::AwaitAuth { id: id@ },
            Phase::AwaitOp { id } => PhaseV::AwaitOp { id: id@ },
        }
    }
}

impl Phase {
    pub open spec fn wf(self) -> bool {
        match self {
            Phase::AwaitAuth { id } => id.wf(),
            Phase::AwaitOp { id } => id.wf(),
            _ => true,
        }
    }
}

/// What the driver reports back after performing a batch of actions.
#[derive(Debug, Clone, PartialEq, Eq)]
pub enum Event {
    /// The batch held no reader query; everything was performed.
    Completed,
    /// Whether a card answered the wake-up request.
    WakeDone { card_present: bool },
    /// The raw identifier bytes, or nothing on a collision or timeout.
    SelectDone { raw: Option<Vec<u8>> },
    /// Whether the sector authentication was accepted.
    AuthDone { ok: bool },
    /// Whether the session's read or write succeeded (logged only).
    OpDone { ok: bool },
}

/// Mathematical image of an `Event`.
pub enum EventV {
    Completed,
    WakeDone { card_present: bool },
    SelectDone { raw: Option<Seq<u8>> },
    AuthDone { ok: bool },
    OpDone { ok: bool },
}

impl View for Event {
    type V = EventV;

    open spec fn view(&self) -> EventV {
        match self {
            Event::Completed => EventV::Completed,
            Event::WakeDone { card_present } => EventV::WakeDone { card_present: *card_present },
            Event::SelectDone { raw } => EventV::SelectDone {
                raw: match raw {
                    Some(b) => Some(b@),
                    None => None,
                },
            },
            Event::AuthDone { ok } => EventV::AuthDone { ok: *ok },
            Event::OpDone { ok } => EventV::OpDone { ok: *ok },
        }
    }
}

/// The event kind each phase awaits.
pub open spec fn event_fits(s: PhaseV, e: EventV) -> bool {
    match s {
        PhaseV::Idle => e is Completed,
        PhaseV::AwaitWake => e is WakeDone,
        PhaseV::AwaitSelect => e is SelectDone,
        PhaseV::AwaitAuth { .. } => e is AuthDone,
        PhaseV::AwaitOp { .. } => e is OpDone,
    }
}

/// The batch closing every cycle: nothing but the inter-poll delay.
pub open spec fn idle_seq(cfg: ConfigV) -> Seq<Action> {
    seq![Action::DelayMs { ms: cfg.poll_interval_ms }]
}

/// The feedback branch of a detection: the actuation profile on an
/// authorized identifier, the failure indication otherwise.
pub open spec fn branch_seq(cfg: ConfigV, id: Seq<u8>) -> Seq<Action> {
    if authorized(cfg.allowlist, id) {
        actuation_seq(cfg)
    } else {
        indication_seq(cfg)
    }
}

/// Everything after the session's data operation: the feedback branch,
/// the unconditional session cleanup, and the inter-poll delay.
pub open spec fn finish_seq(cfg: ConfigV, id: Seq<u8>) -> Seq<Action> {
    branch_seq(cfg, id) + cleanup_seq() + idle_seq(cfg)
}

/// One transition of the poll loop. An event of a kind the phase does not
/// await is a driver fault; it is treated as a transient failure, ending
/// the cycle with the inter-poll delay.
pub open spec fn step_spec(cfg: ConfigV, s: PhaseV, e: EventV) -> (PhaseV, Seq<Action>) {
    match (s, e) {
        (PhaseV::Idle, EventV::Completed) => (PhaseV::AwaitWake, seq![Action::Wake]),
        (PhaseV::AwaitWake, EventV::WakeDone { card_present }) => if card_present {
            (PhaseV::AwaitSelect, seq![Action::Select])
        } else {
            (PhaseV::Idle, idle_seq(cfg))
        },
        (PhaseV::AwaitSelect, EventV::SelectDone { raw }) => match raw {
            Some(b) => if supported_len(b.len()) {
                (PhaseV::AwaitAuth { id: b }, seq![(Action::Authenticate { block: cfg.sector })])
            } else {
                (PhaseV::Idle, idle_seq(cfg))
            },
            None => (PhaseV::Idle, idle_seq(cfg)),
        },
        (PhaseV::AwaitAuth { id }, EventV::AuthDone { ok }) => if ok {
            (PhaseV::AwaitOp { id }, op_seq(cfg))
        } else {
            (PhaseV::Idle, finish_seq(cfg, id))
        },
        (PhaseV::AwaitOp { id }, EventV::OpDone { .. }) => (PhaseV::Idle, finish_seq(cfg, id)),
        _ => (PhaseV::Idle, idle_seq(cfg)),
    }
}

fn idle_actions(cfg: &Config) -> (v: Vec<Action>)
    ensures
        v@ == idle_seq(cfg@),
{
    let mut v: Vec<Action> = Vec::new();
    v.push(Action::DelayMs { ms: cfg.poll_interval_ms });
    proof {
        assert(v@ =~= idle_seq(cfg@));
    }
    v
}

/// Builds everything after the session's data operation: feedback branch,
/// session cleanup, inter-poll delay.
pub fn finish_actions(cfg: &Config, id: &CardIdentifier) -> (v: Vec<Action>)
    ensures
        v@ == finish_seq(cfg@, id@),
{
    let mut v: Vec<Action> = if is_authorized(id, &cfg.allowlist) {
        actuation_cycle(cfg)
    } else {
        failure_indication(cfg)
    };
    v.push(Action::Halt);
    v.push(Action::StopSession);
    v.push(Action::DelayMs { ms: cfg.poll_interval_ms });
    proof {
        assert(v@ =~= finish_seq(cfg@, id@));
    }
    v
}

/// One transition of the poll loop: the next phase and the batch of
/// hardware actions the driver must perform before the next event.
pub fn step(cfg: &Config, state: Phase, event: Event) -> (r: (Phase, Vec<Action>))
    requires
        cfg.wf(),
        state.wf(),
    ensures
        r.0@ == step_spec(cfg@, state@, event@).0,
        r.1@ == step_spec(cfg@, state@, event@).1,
        r.0.wf(),
{
    match (state, event) {
        (Phase::Idle, Event::Completed) => {
            let mut v: Vec<Action> = Vec::new();
            v.push(Action::Wake);
            proof {
                assert(v@ =~= seq![Action::Wake]);
            }
            (Phase::AwaitWake, v)
        }
        (Phase::AwaitWake, Event::WakeDone { card_present }) => {
            if card_present {
                let mut v: Vec<Action> = Vec::new();
                v.push(Action::Select);
                proof {
                    assert(v@ =~= seq![Action::Select]);
                }
                (Phase::AwaitSelect, v)
            } else {
                (Phase::Idle, idle_actions(cfg))
            }
        }
        (Phase::AwaitSelect, Event::SelectDone { raw }) => {
            match raw {
                Some(b) => {
                    match classify(b) {
                        Some(id) => {
                            let mut v: Vec<Action> = Vec::new();
                            v.push(Action::Authenticate { block: cfg.sector });
                            proof {
                                assert(v@ =~= seq![(Action::Authenticate { block: cfg@.sector })]);
                            }
                            (Phase::AwaitAuth { id }, v)
                        }
                        None => (Phase::Idle, idle_actions(cfg)),
                    }
                }
                None => (Phase::Idle, idle_actions(cfg)),
            }
        }
        (Phase::AwaitAuth { id }, Event::AuthDone { ok }) => {
            if ok {
                (Phase::AwaitOp { id }, session_op(cfg))
            } else {
                let v = finish_actions(cfg, &id);
                (Phase::Idle, v)
            }
        }
        (Phase::AwaitOp { id }, Event::OpDone { ok: _ }) => {
            let v = finish_actions(cfg, &id);
            (Phase::Idle, v)
        }
        _ => (Phase::Idle, idle_actions(cfg)),
    }
}

/// Folding the machine over a sequence of events from a start phase: the
/// final phase, and every action emitted along the way in order.
pub open spec fn run(cfg: ConfigV, s: PhaseV, evs: Seq<EventV>) -> (PhaseV, Seq<Action>)
    decreases evs.len(),
{
    if evs.len() == 0 {
        (s, Seq::empty())
    } else {
        let stepped = step_spec(cfg, s, evs.first());
        let rest = run(cfg, stepped.0, evs.drop_first());
        (rest.0, stepped.1 + rest.1)
    }
}

pub proof fn lemma_run_nil(cfg: ConfigV, s: PhaseV)
    ensures
        run(cfg, s, Seq::empty()) == (s, Seq::<Action>::empty()),
{
}

pub proof fn lemma_run_cons(cfg: ConfigV, s: PhaseV, evs: Seq<EventV>)
    requires
        evs.len() > 0,
    ensures
        run(cfg, s, evs).0 == run(cfg, step_spec(cfg, s, evs.first()).0, evs.drop_first()).0,
        run(cfg, s, evs).1 == step_spec(cfg, s, evs.first()).1 + run(
            cfg,
            step_spec(cfg, s, evs.first()).0,
            evs.drop_first(),
        ).1,
{
}

/// Running over concatenated event sequences composes: the second leg
/// starts in the phase the first leg ended in, and the traces concatenate.
pub proof fn lemma_run_append(cfg: ConfigV, s: PhaseV, evs1: Seq<EventV>, evs2: Seq<EventV>)
    ensures
        run(cfg, s, evs1 + evs2).0 == run(cfg, run(cfg, s, evs1).0, evs2).0,
        run(cfg, s, evs1 + evs2).1 == run(cfg, s, evs1).1 + run(cfg, run(cfg, s, evs1).0, evs2).1,
    decreases evs1.len(),
{
    if evs1.len() == 0 {
        assert(evs1 + evs2 =~= evs2);
        assert(run(cfg, s, evs1).1 + run(cfg, run(cfg, s, evs1).0, evs2).1 =~= run(
            cfg,
            s,
            evs2,
        ).1);
    } else {
        let stepped = step_spec(cfg, s, evs1.first());
        assert((evs1 + evs2).first() == evs1.first());
        assert((evs1 + evs2).drop_first() =~= evs1.drop_first() + evs2);
        lemma_run_append(cfg, stepped.0, evs1.drop_first(), evs2);
        assert(stepped.1 + (run(cfg, stepped.0, evs1.drop_first()).1 + run(
            cfg,
            run(cfg, stepped.0, evs1.drop_first()).0,
            evs2,
        ).1) =~= (stepped.1 + run(cfg, stepped.0, evs1.drop_first()).1) + run(
            cfg,
            run(cfg, stepped.0, evs1.drop_first()).0,
            evs2,
        ).1);
    }
}

/// What one poll cycle can observe of the outside world.
pub enum CycleOutcome {
    /// The wake-up request got no response.
    NoCard,
    /// A card responded but the identifier could not be resolved.
    SelectFailed,
    /// The resolved identifier has an unsupported length.
    UnsupportedId { raw: Seq<u8> },
    /// A supported identifier was resolved and a session ran against it.
    SessionRun { raw: Seq<u8>, auth_ok: bool, op_ok: bool },
}

/// The raw bytes of an outcome have the length its kind claims.
pub open spec fn cycle_wf(oc: CycleOutcome) -> bool {
    match oc {
        CycleOutcome::UnsupportedId { raw } => !supported_len(raw.len()),
        CycleOutcome::SessionRun { raw, .. } => supported_len(raw.len()),
        _ => true,
    }
}

/// The events the driver reports over one cycle with the given outcome.
pub open spec fn cycle_events(oc: CycleOutcome) -> Seq<EventV> {
    match oc {
        CycleOutcome::NoCard => seq![
            EventV::Completed,
            EventV::WakeDone { card_present: false },
        ],
        CycleOutcome::SelectFailed => seq![
            EventV::Completed,
            EventV::WakeDone { card_present: true },
            EventV::SelectDone { raw: None },
        ],
        CycleOutcome::UnsupportedId { raw } => seq![
            EventV::Completed,
            EventV::WakeDone { card_present: true },
            EventV::SelectDone { raw: Some(raw) },
        ],
        CycleOutcome::SessionRun { raw, auth_ok, op_ok } => if auth_ok {
            seq![
                EventV::Completed,
                EventV::WakeDone { card_present: true },
                EventV::SelectDone { raw: Some(raw) },
                EventV::AuthDone { ok: true },
                EventV::OpDone { ok: op_ok },
            ]
        } else {
            seq![
                EventV::Completed,
                EventV::WakeDone { card_present: true },
                EventV::SelectDone { raw: Some(raw) },
                EventV::AuthDone { ok: false },
            ]
        },
    }
}

/// Every action one cycle with the given outcome emits, in order.
pub open spec fn cycle_trace(cfg: ConfigV, oc: CycleOutcome) -> Seq<Action> {
    run(cfg, PhaseV::Idle, cycle_events(oc)).1
}

/// The trace of a cycle in which a session ran against identifier `raw`.
pub open spec fn session_trace(cfg: ConfigV, raw: Seq<u8>, auth_ok: bool, op_ok: bool) -> Seq<
    Action,
> {
    cycle_trace(cfg, CycleOutcome::SessionRun { raw, auth_ok, op_ok })
}

/// A cycle in which no card responded returns to `Idle` having done
/// nothing but the wake-up poll and the inter-poll delay.
pub proof fn lemma_cycle_no_card(cfg: ConfigV)
    ensures
        run(cfg, PhaseV::Idle, cycle_events(CycleOutcome::NoCard)).0 == PhaseV::Idle,
        cycle_trace(cfg, CycleOutcome::NoCard) == seq![
            Action::Wake,
            (Action::DelayMs { ms: cfg.poll_interval_ms }),
        ],
{
    let e0 = EventV::Completed;
    let e1 = EventV::WakeDone { card_present: false };
    let evs = cycle_events(CycleOutcome::NoCard);
    lemma_run_cons(cfg, PhaseV::Idle, evs);
    assert(evs.first() == e0);
    assert(evs.drop_first() =~= seq![e1]);
    lemma_run_cons(cfg, PhaseV::AwaitWake, seq![e1]);
    assert(seq![e1].drop_first() =~= Seq::<EventV>::empty());
    lemma_run_nil(cfg, PhaseV::Idle);
    assert(cycle_trace(cfg, CycleOutcome::NoCard) =~= seq![
        Action::Wake,
        (Action::DelayMs { ms: cfg.poll_interval_ms }),
    ]);
}

/// A cycle in which the select failed, or resolved an identifier of an
/// unsupported length, returns to `Idle` having polled, selected, and
/// then gone straight to the inter-poll delay.
pub proof fn lemma_cycle_no_session(cfg: ConfigV, oc: CycleOutcome)
    requires
        cycle_wf(oc),
        oc is SelectFailed || oc is UnsupportedId,
    ensures
        run(cfg, PhaseV::Idle, cycle_events(oc)).0 == PhaseV::Idle,
        cycle_trace(cfg, oc) == seq![
            Action::Wake,
            Action::Select,
            (Action::DelayMs { ms: cfg.poll_interval_ms }),
        ],
{
    let e0 = EventV::Completed;
    let e1 = EventV::WakeDone { card_present: true };
    let e2: EventV = if oc is SelectFailed {
        EventV::SelectDone { raw: None }
    } else {
        EventV::SelectDone { raw: Some(oc->UnsupportedId_raw) }
    };
    let evs = cycle_events(oc);
    assert(evs =~= seq![e0, e1, e2]);
    lemma_run_cons(cfg, PhaseV::Idle, evs);
    assert(evs.first() == e0);
    assert(evs.drop_first() =~= seq![e1, e2]);
    lemma_run_cons(cfg, PhaseV::AwaitWake, seq![e1, e2]);
    assert(seq![e1, e2].drop_first() =~= seq![e2]);
    lemma_run_cons(cfg, PhaseV::AwaitSelect, seq![e2]);
    assert(seq![e2].drop_first() =~= Seq::<EventV>::empty());
    assert(step_spec(cfg, PhaseV::AwaitSelect, e2).0 == PhaseV::Idle);
    lemma_run_nil(cfg, PhaseV::Idle);
    assert(cycle_trace(cfg, oc) =~= seq![
        Action::Wake,
        Action::Select,
        (Action::DelayMs { ms: cfg.poll_interval_ms }),
    ]);
}

/// A cycle in which a session ran returns to `Idle`; its trace is the
/// wake-up, the select, the authentication, the one data operation if
/// authentication succeeded, and then the feedback branch, the session
/// cleanup and the inter-poll delay.
pub proof fn lemma_cycle_session(cfg: ConfigV, raw: Seq<u8>, auth_ok: bool, op_ok: bool)
    requires
        supported_len(raw.len()),
    ensures
        run(
            cfg,
            PhaseV::Idle,
            cycle_events(CycleOutcome::SessionRun { raw, auth_ok, op_ok }),
        ).0 == PhaseV::Idle,
        session_trace(cfg, raw, auth_ok, op_ok) == seq![
            Action::Wake,
            Action::Select,
            (Action::Authenticate { block: cfg.sector }),
        ] + (if auth_ok {
            op_seq(cfg)
        } else {
            Seq::<Action>::empty()
        }) + finish_seq(cfg, raw),
{
    let e0 = EventV::Completed;
    let e1 = EventV::WakeDone { card_present: true };
    let e2 = EventV::SelectDone { raw: Some(raw) };
    let e3 = EventV::AuthDone { ok: auth_ok };
    let e4 = EventV::OpDone { ok: op_ok };
    let oc = CycleOutcome::SessionRun { raw, auth_ok, op_ok };
    let evs = cycle_events(oc);
    lemma_run_cons(cfg, PhaseV::Idle, evs);
    assert(evs.first() == e0);
    lemma_run_cons(cfg, PhaseV::AwaitWake, evs.drop_first());
    assert(evs.drop_first().first() == e1);
    lemma_run_cons(cfg, PhaseV::AwaitSelect, evs.drop_first().drop_first());
    assert(evs.drop_first().drop_first().first() == e2);
    assert(step_spec(cfg, PhaseV::AwaitSelect, e2).0 == (PhaseV::AwaitAuth { id: raw }));
    let rest3 = evs.drop_first().drop_first().drop_first();
    lemma_run_cons(cfg, PhaseV::AwaitAuth { id: raw }, rest3);
    assert(rest3.first() == e3);
    if auth_ok {
        assert(step_spec(cfg, PhaseV::AwaitAuth { id: raw }, e3).0 == (PhaseV::AwaitOp {
            id: raw,
        }));
        let rest4 = rest3.drop_first();
        assert(rest4 =~= seq![e4]);
        lemma_run_cons(cfg, PhaseV::AwaitOp { id: raw }, rest4);
        assert(rest4.drop_first() =~= Seq::<EventV>::empty());
        lemma_run_nil(cfg, PhaseV::Idle);
        assert(session_trace(cfg, raw, auth_ok, op_ok) =~= seq![
            Action::Wake,
            Action::Select,
            (Action::Authenticate { block: cfg.sector }),
        ] + op_seq(cfg) + finish_seq(cfg, raw));
    } else {
        assert(rest3.drop_first() =~= Seq::<EventV>::empty());
        lemma_run_nil(cfg, PhaseV::Idle);
        assert(session_trace(cfg, raw, auth_ok, op_ok) =~= seq![
            Action::Wake,
            Action::Select,
            (Action::Authenticate { block: cfg.sector }),
        ] + Seq::<Action>::empty() + finish_seq(cfg, raw));
    }
}

} // verus!
