//! The behavioural laws of the controller, stated and proved over whole
//! poll-cycle traces.
//!
//! Each law quantifies over a cycle's observable outcome (which identifier
//! was resolved, whether authentication and the data operation succeeded)
//! and pins what the emitted hardware actions must and must not contain.

use vstd::prelude::*;

use crate::actions::{
    count_class, duties_of, in_class, lemma_count_class_concat, lemma_duties_concat, Action,
    ActionClass,
};
use crate::config::{lock_duty, unlock_duty, ConfigV, BLINK_COUNT};
use crate::controller::{
    branch_seq, cycle_events, cycle_trace, cycle_wf, finish_seq, idle_seq, lemma_cycle_no_card,
    lemma_cycle_no_session, lemma_cycle_session, lemma_run_append, run, session_trace,
    CycleOutcome, PhaseV,
};
use crate::identifier::{authorized, supported_len};
use crate::sequencer::{
    actuation_seq, blink_seq, emits_along, full_lock_cycle, indication_seq,
    lemma_actuation_is_one_lock_cycle, valid_phase_path, LockPhase,
};
use crate::session::{cleanup_seq, op_seq};

verus! {

/// The actions of a detection cycle up to and including the sector
/// authentication.
pub open spec fn detection_prefix(cfg: ConfigV) -> Seq<Action> {
    seq![Action::Wake, Action::Select, (Action::Authenticate { block: cfg.sector })]
}

/// Class counts of the fixed small batches of a cycle.
proof fn lemma_count_prefix(cfg: ConfigV, c: ActionClass)
    ensures
        count_class(detection_prefix(cfg), c) == (if in_class(Action::Wake, c) {
            1nat
        } else {
            0nat
        }) + (if in_class(Action::Select, c) {
            1nat
        } else {
            0nat
        }) + (if in_class((Action::Authenticate { block: cfg.sector }), c) {
            1nat
        } else {
            0nat
        }),
{
    reveal_with_fuel(count_class, 5);
    let p = detection_prefix(cfg);
    assert(p.drop_last() =~= seq![Action::Wake, Action::Select]);
    assert(seq![Action::Wake, Action::Select].drop_last() =~= seq![Action::Wake]);
    assert(seq![Action::Wake].drop_last() =~= Seq::<Action>::empty());
}

proof fn lemma_count_cleanup(c: ActionClass)
    ensures
        count_class(cleanup_seq(), c) == (if in_class(Action::Halt, c) {
            1nat
        } else {
            0nat
        }) + (if in_class(Action::StopSession, c) {
            1nat
        } else {
            0nat
        }),
{
    reveal_with_fuel(count_class, 4);
    assert(cleanup_seq().drop_last() =~= seq![Action::Halt]);
    assert(seq![Action::Halt].drop_last() =~= Seq::<Action>::empty());
}

proof fn lemma_count_idle(cfg: ConfigV, c: ActionClass)
    ensures
        count_class(idle_seq(cfg), c) == (if in_class(
            (Action::DelayMs { ms: cfg.poll_interval_ms }),
            c,
        ) {
            1nat
        } else {
            0nat
        }),
{
    reveal_with_fuel(count_class, 3);
    assert(idle_seq(cfg).drop_last() =~= Seq::<Action>::empty());
}

proof fn lemma_count_op(cfg: ConfigV, c: ActionClass)
    ensures
        count_class(op_seq(cfg), c) == if cfg.write {
            if in_class((Action::WriteBlock { block: cfg.sector }), c) {
                1nat
            } else {
                0nat
            }
        } else {
            if in_class((Action::ReadBlock { block: cfg.sector }), c) {
                1nat
            } else {
                0nat
            }
        },
{
    reveal_with_fuel(count_class, 3);
    assert(op_seq(cfg).drop_last() =~= Seq::<Action>::empty());
}

/// None of the fixed small batches commands a duty cycle.
proof fn lemma_no_duties_small(cfg: ConfigV)
    ensures
        duties_of(detection_prefix(cfg)) == Seq::<u16>::empty(),
        duties_of(op_seq(cfg)) == Seq::<u16>::empty(),
        duties_of(cleanup_seq()) == Seq::<u16>::empty(),
        duties_of(idle_seq(cfg)) == Seq::<u16>::empty(),
{
    reveal_with_fuel(duties_of, 5);
    let p = detection_prefix(cfg);
    assert(p.drop_last() =~= seq![Action::Wake, Action::Select]);
    assert(seq![Action::Wake, Action::Select].drop_last() =~= seq![Action::Wake]);
    assert(seq![Action::Wake].drop_last() =~= Seq::<Action>::empty());
    assert(op_seq(cfg).drop_last() =~= Seq::<Action>::empty());
    assert(cleanup_seq().drop_last() =~= seq![Action::Halt]);
    assert(seq![Action::Halt].drop_last() =~= Seq::<Action>::empty());
    assert(idle_seq(cfg).drop_last() =~= Seq::<Action>::empty());
    assert(duties_of(detection_prefix(cfg)) =~= Seq::<u16>::empty());
    assert(duties_of(op_seq(cfg)) =~= Seq::<u16>::empty());
    assert(duties_of(cleanup_seq()) =~= Seq::<u16>::empty());
    assert(duties_of(idle_seq(cfg)) =~= Seq::<u16>::empty());
}

/// Class counts and duty commands of the whole actuation profile.
#[verifier::rlimit(100)]
proof fn lemma_actuation_counts(cfg: ConfigV)
    ensures
        count_class(actuation_seq(cfg), ActionClass::Actuator) == 5,
        count_class(actuation_seq(cfg), ActionClass::PositiveToggle) == 2,
        count_class(actuation_seq(cfg), ActionClass::NegativeToggle) == 0,
        count_class(actuation_seq(cfg), ActionClass::HaltCmd) == 0,
        count_class(actuation_seq(cfg), ActionClass::StopCmd) == 0,
        count_class(actuation_seq(cfg), ActionClass::ReadCmd) == 0,
        count_class(actuation_seq(cfg), ActionClass::WriteCmd) == 0,
        count_class(actuation_seq(cfg), ActionClass::WakeCmd) == 0,
        duties_of(actuation_seq(cfg)) == seq![unlock_duty(cfg), lock_duty(cfg)],
{
    reveal_with_fuel(count_class, 11);
    reveal_with_fuel(duties_of, 11);
    let s9 = actuation_seq(cfg);
    let s8 = seq![
        Action::RailOn,
        Action::TogglePositive,
        (Action::SetDuty { duty: unlock_duty(cfg) }),
        Action::EnablePwm,
        (Action::DelayMs { ms: cfg.unlock_hold_ms }),
        (Action::SetDuty { duty: lock_duty(cfg) }),
        (Action::DelayMs { ms: cfg.lock_hold_ms }),
        Action::TogglePositive,
    ];
    let s7 = s8.drop_last();
    let s6 = s7.drop_last();
    let s5 = s6.drop_last();
    let s4 = s5.drop_last();
    let s3 = s4.drop_last();
    let s2 = s3.drop_last();
    let s1 = s2.drop_last();
    assert(s9.drop_last() =~= s8);
    assert(s1.drop_last() =~= Seq::<Action>::empty());
    assert(duties_of(s9) =~= seq![unlock_duty(cfg), lock_duty(cfg)]);
}

/// Class counts of the failure indication, by induction over the blinks.
proof fn lemma_blink_counts(cfg: ConfigV, n: nat)
    ensures
        count_class(blink_seq(cfg, n), ActionClass::NegativeToggle) == n,
        count_class(blink_seq(cfg, n), ActionClass::Actuator) == 0,
        count_class(blink_seq(cfg, n), ActionClass::PositiveToggle) == 0,
        count_class(blink_seq(cfg, n), ActionClass::HaltCmd) == 0,
        count_class(blink_seq(cfg, n), ActionClass::StopCmd) == 0,
        count_class(blink_seq(cfg, n), ActionClass::ReadCmd) == 0,
        count_class(blink_seq(cfg, n), ActionClass::WriteCmd) == 0,
        count_class(blink_seq(cfg, n), ActionClass::WakeCmd) == 0,
        duties_of(blink_seq(cfg, n)) == Seq::<u16>::empty(),
    decreases n,
{
    reveal_with_fuel(count_class, 5);
    reveal_with_fuel(duties_of, 5);
    if n == 0 {
    } else {
        lemma_blink_counts(cfg, (n - 1) as nat);
        let prev = blink_seq(cfg, (n - 1) as nat);
        let tail = seq![
            (Action::DelayMs { ms: cfg.blink_interval_ms }),
            Action::ToggleNegative,
            (Action::DelayMs { ms: cfg.blink_interval_ms }),
        ];
        assert(blink_seq(cfg, n) == prev + tail);
        assert(tail.drop_last() =~= seq![
            (Action::DelayMs { ms: cfg.blink_interval_ms }),
            Action::ToggleNegative,
        ]);
        assert(tail.drop_last().drop_last() =~= seq![
            (Action::DelayMs { ms: cfg.blink_interval_ms }),
        ]);
        assert(tail.drop_last().drop_last().drop_last() =~= Seq::<Action>::empty());
        lemma_count_class_concat(prev, tail, ActionClass::NegativeToggle);
        lemma_count_class_concat(prev, tail, ActionClass::Actuator);
        lemma_count_class_concat(prev, tail, ActionClass::PositiveToggle);
        lemma_count_class_concat(prev, tail, ActionClass::HaltCmd);
        lemma_count_class_concat(prev, tail, ActionClass::StopCmd);
        lemma_count_class_concat(prev, tail, ActionClass::ReadCmd);
        lemma_count_class_concat(prev, tail, ActionClass::WriteCmd);
        lemma_count_class_concat(prev, tail, ActionClass::WakeCmd);
        lemma_duties_concat(prev, tail);
        assert(duties_of(blink_seq(cfg, n)) =~= Seq::<u16>::empty());
    }
}

/// The feedback branch never touches the reader: whichever way the
/// authorization went, it holds no wake, select, read, write, halt or
/// stop-session command.
proof fn lemma_branch_no_reader(cfg: ConfigV, id: Seq<u8>)
    ensures
        count_class(branch_seq(cfg, id), ActionClass::HaltCmd) == 0,
        count_class(branch_seq(cfg, id), ActionClass::StopCmd) == 0,
        count_class(branch_seq(cfg, id), ActionClass::ReadCmd) == 0,
        count_class(branch_seq(cfg, id), ActionClass::WriteCmd) == 0,
        count_class(branch_seq(cfg, id), ActionClass::WakeCmd) == 0,
{
    if authorized(cfg.allowlist, id) {
        lemma_actuation_counts(cfg);
    } else {
        lemma_blink_counts(cfg, BLINK_COUNT as nat);
    }
}

/// A session cycle's class count is the sum over its five parts: the
/// detection prefix, the data operation (if authentication succeeded),
/// the feedback branch, the session cleanup and the inter-poll delay;
/// and only the feedback branch commands duty cycles.
proof fn lemma_session_decomp(
    cfg: ConfigV,
    raw: Seq<u8>,
    auth_ok: bool,
    op_ok: bool,
    c: ActionClass,
)
    requires
        supported_len(raw.len()),
    ensures
        count_class(session_trace(cfg, raw, auth_ok, op_ok), c) == count_class(
            detection_prefix(cfg),
            c,
        ) + (if auth_ok {
            count_class(op_seq(cfg), c)
        } else {
            0nat
        }) + count_class(branch_seq(cfg, raw), c) + count_class(cleanup_seq(), c) + count_class(
            idle_seq(cfg),
            c,
        ),
        duties_of(session_trace(cfg, raw, auth_ok, op_ok)) == duties_of(branch_seq(cfg, raw)),
{
    lemma_cycle_session(cfg, raw, auth_ok, op_ok);
    let prefix = detection_prefix(cfg);
    let mid: Seq<Action> = if auth_ok {
        op_seq(cfg)
    } else {
        Seq::empty()
    };
    let trace = session_trace(cfg, raw, auth_ok, op_ok);
    assert(trace == prefix + mid + finish_seq(cfg, raw));
    lemma_count_class_concat(prefix + mid, finish_seq(cfg, raw), c);
    lemma_count_class_concat(prefix, mid, c);
    lemma_count_class_concat(branch_seq(cfg, raw) + cleanup_seq(), idle_seq(cfg), c);
    lemma_count_class_concat(branch_seq(cfg, raw), cleanup_seq(), c);
    lemma_duties_concat(prefix + mid, finish_seq(cfg, raw));
    lemma_duties_concat(prefix, mid);
    lemma_duties_concat(branch_seq(cfg, raw) + cleanup_seq(), idle_seq(cfg));
    lemma_duties_concat(branch_seq(cfg, raw), cleanup_seq());
    lemma_no_duties_small(cfg);
    assert(duties_of(trace) =~= duties_of(branch_seq(cfg, raw)));
}

/// For every identifier not bit-equal to any allowlist entry, the
/// actuation profile never runs: the cycle emits no actuator, power-rail
/// or positive-indicator action and commands no duty cycle. The failure
/// indication runs exactly once: the negative indicator toggles
/// `BLINK_COUNT` times.
pub proof fn unauthorized_never_actuates(cfg: ConfigV, raw: Seq<u8>, auth_ok: bool, op_ok: bool)
    requires
        supported_len(raw.len()),
        !authorized(cfg.allowlist, raw),
    ensures
        count_class(session_trace(cfg, raw, auth_ok, op_ok), ActionClass::Actuator) == 0,
        count_class(session_trace(cfg, raw, auth_ok, op_ok), ActionClass::PositiveToggle) == 0,
        duties_of(session_trace(cfg, raw, auth_ok, op_ok)) == Seq::<u16>::empty(),
        branch_seq(cfg, raw) == indication_seq(cfg),
        count_class(session_trace(cfg, raw, auth_ok, op_ok), ActionClass::NegativeToggle)
            == BLINK_COUNT as nat,
{
    lemma_session_decomp(cfg, raw, auth_ok, op_ok, ActionClass::Actuator);
    lemma_session_decomp(cfg, raw, auth_ok, op_ok, ActionClass::PositiveToggle);
    lemma_session_decomp(cfg, raw, auth_ok, op_ok, ActionClass::NegativeToggle);
    lemma_count_prefix(cfg, ActionClass::Actuator);
    lemma_count_prefix(cfg, ActionClass::PositiveToggle);
    lemma_count_prefix(cfg, ActionClass::NegativeToggle);
    lemma_count_op(cfg, ActionClass::Actuator);
    lemma_count_op(cfg, ActionClass::PositiveToggle);
    lemma_count_op(cfg, ActionClass::NegativeToggle);
    lemma_count_cleanup(ActionClass::Actuator);
    lemma_count_cleanup(ActionClass::PositiveToggle);
    lemma_count_cleanup(ActionClass::NegativeToggle);
    lemma_count_idle(cfg, ActionClass::Actuator);
    lemma_count_idle(cfg, ActionClass::PositiveToggle);
    lemma_count_idle(cfg, ActionClass::NegativeToggle);
    lemma_blink_counts(cfg, BLINK_COUNT as nat);
}

/// For an allowlisted identifier, the actuation state machine runs
/// exactly once per detection: the trace commands exactly the two duty
/// cycles `max_duty / 10` then `max_duty / 20` in that order, toggles the
/// positive indicator exactly twice and the negative one never, and the
/// profile it emits is one pass of the lock-phase machine
/// `Locked -> Unlocking -> Unlocked -> Locking -> Locked`.
pub proof fn authorized_actuates_once(cfg: ConfigV, raw: Seq<u8>, auth_ok: bool, op_ok: bool)
    requires
        supported_len(raw.len()),
        authorized(cfg.allowlist, raw),
    ensures
        branch_seq(cfg, raw) == actuation_seq(cfg),
        duties_of(session_trace(cfg, raw, auth_ok, op_ok)) == seq![
            unlock_duty(cfg),
            lock_duty(cfg),
        ],
        count_class(session_trace(cfg, raw, auth_ok, op_ok), ActionClass::PositiveToggle) == 2,
        count_class(session_trace(cfg, raw, auth_ok, op_ok), ActionClass::NegativeToggle) == 0,
        count_class(session_trace(cfg, raw, auth_ok, op_ok), ActionClass::Actuator) == 5,
        valid_phase_path(full_lock_cycle()),
        full_lock_cycle().first() == LockPhase::Locked,
        full_lock_cycle().last() == LockPhase::Locked,
        emits_along(cfg, full_lock_cycle()) == actuation_seq(cfg),
{
    lemma_session_decomp(cfg, raw, auth_ok, op_ok, ActionClass::Actuator);
    lemma_session_decomp(cfg, raw, auth_ok, op_ok, ActionClass::PositiveToggle);
    lemma_session_decomp(cfg, raw, auth_ok, op_ok, ActionClass::NegativeToggle);
    lemma_count_prefix(cfg, ActionClass::Actuator);
    lemma_count_prefix(cfg, ActionClass::PositiveToggle);
    lemma_count_prefix(cfg, ActionClass::NegativeToggle);
    lemma_count_op(cfg, ActionClass::Actuator);
    lemma_count_op(cfg, ActionClass::PositiveToggle);
    lemma_count_op(cfg, ActionClass::NegativeToggle);
    lemma_count_cleanup(ActionClass::Actuator);
    lemma_count_cleanup(ActionClass::PositiveToggle);
    lemma_count_cleanup(ActionClass::NegativeToggle);
    lemma_count_idle(cfg, ActionClass::Actuator);
    lemma_count_idle(cfg, ActionClass::PositiveToggle);
    lemma_count_idle(cfg, ActionClass::NegativeToggle);
    lemma_actuation_counts(cfg);
    lemma_actuation_is_one_lock_cycle(cfg);
}

/// The card is halted and the crypto session reset exactly once per
/// session attempt, whatever the authentication and data outcomes and
/// whether or not the identifier was authorized.
pub proof fn cleanup_exactly_once(cfg: ConfigV, raw: Seq<u8>, auth_ok: bool, op_ok: bool)
    requires
        supported_len(raw.len()),
    ensures
        count_class(session_trace(cfg, raw, auth_ok, op_ok), ActionClass::HaltCmd) == 1,
        count_class(session_trace(cfg, raw, auth_ok, op_ok), ActionClass::StopCmd) == 1,
{
    lemma_session_decomp(cfg, raw, auth_ok, op_ok, ActionClass::HaltCmd);
    lemma_session_decomp(cfg, raw, auth_ok, op_ok, ActionClass::StopCmd);
    lemma_count_prefix(cfg, ActionClass::HaltCmd);
    lemma_count_prefix(cfg, ActionClass::StopCmd);
    lemma_count_op(cfg, ActionClass::HaltCmd);
    lemma_count_op(cfg, ActionClass::StopCmd);
    lemma_count_cleanup(ActionClass::HaltCmd);
    lemma_count_cleanup(ActionClass::StopCmd);
    lemma_count_idle(cfg, ActionClass::HaltCmd);
    lemma_count_idle(cfg, ActionClass::StopCmd);
    lemma_branch_no_reader(cfg, raw);
}

/// Each session performs at most one data operation, and read and write
/// are mutually exclusive: a read happens exactly when authentication
/// succeeded in read mode, a write exactly when it succeeded in write
/// mode, and never both.
pub proof fn session_rw_exclusive(cfg: ConfigV, raw: Seq<u8>, auth_ok: bool, op_ok: bool)
    requires
        supported_len(raw.len()),
    ensures
        count_class(session_trace(cfg, raw, auth_ok, op_ok), ActionClass::ReadCmd) == (
        if auth_ok && !cfg.write {
            1nat
        } else {
            0nat
        }),
        count_class(session_trace(cfg, raw, auth_ok, op_ok), ActionClass::WriteCmd) == (
        if auth_ok && cfg.write {
            1nat
        } else {
            0nat
        }),
        count_class(session_trace(cfg, raw, auth_ok, op_ok), ActionClass::ReadCmd) + count_class(
            session_trace(cfg, raw, auth_ok, op_ok),
            ActionClass::WriteCmd,
        ) <= 1,
{
    lemma_session_decomp(cfg, raw, auth_ok, op_ok, ActionClass::ReadCmd);
    lemma_session_decomp(cfg, raw, auth_ok, op_ok, ActionClass::WriteCmd);
    lemma_count_prefix(cfg, ActionClass::ReadCmd);
    lemma_count_prefix(cfg, ActionClass::WriteCmd);
    lemma_count_op(cfg, ActionClass::ReadCmd);
    lemma_count_op(cfg, ActionClass::WriteCmd);
    lemma_count_cleanup(ActionClass::ReadCmd);
    lemma_count_cleanup(ActionClass::WriteCmd);
    lemma_count_idle(cfg, ActionClass::ReadCmd);
    lemma_count_idle(cfg, ActionClass::WriteCmd);
    lemma_branch_no_reader(cfg, raw);
}

/// Every cycle, whichever branch it took, returns to `Idle`, issues
/// exactly one wake-up — its very first action — and ends with the
/// inter-poll delay, so the delay elapses before the next wake-up.
pub proof fn delay_closes_every_cycle(cfg: ConfigV, oc: CycleOutcome)
    requires
        cycle_wf(oc),
    ensures
        run(cfg, PhaseV::Idle, cycle_events(oc)).0 == PhaseV::Idle,
        cycle_trace(cfg, oc).len() > 0,
        cycle_trace(cfg, oc).first() == Action::Wake,
        cycle_trace(cfg, oc).last() == (Action::DelayMs { ms: cfg.poll_interval_ms }),
        count_class(cycle_trace(cfg, oc), ActionClass::WakeCmd) == 1,
{
    reveal_with_fuel(count_class, 5);
    match oc {
        CycleOutcome::NoCard => {
            lemma_cycle_no_card(cfg);
            let t = cycle_trace(cfg, oc);
            assert(t.drop_last() =~= seq![Action::Wake]);
            assert(seq![Action::Wake].drop_last() =~= Seq::<Action>::empty());
        }
        CycleOutcome::SelectFailed => {
            lemma_cycle_no_session(cfg, oc);
            let t = cycle_trace(cfg, oc);
            assert(t.drop_last() =~= seq![Action::Wake, Action::Select]);
            assert(seq![Action::Wake, Action::Select].drop_last() =~= seq![Action::Wake]);
            assert(seq![Action::Wake].drop_last() =~= Seq::<Action>::empty());
        }
        CycleOutcome::UnsupportedId { raw } => {
            lemma_cycle_no_session(cfg, oc);
            let t = cycle_trace(cfg, oc);
            assert(t.drop_last() =~= seq![Action::Wake, Action::Select]);
            assert(seq![Action::Wake, Action::Select].drop_last() =~= seq![Action::Wake]);
            assert(seq![Action::Wake].drop_last() =~= Seq::<Action>::empty());
        }
        CycleOutcome::SessionRun { raw, auth_ok, op_ok } => {
            lemma_cycle_session(cfg, raw, auth_ok, op_ok);
            lemma_session_decomp(cfg, raw, auth_ok, op_ok, ActionClass::WakeCmd);
            lemma_count_prefix(cfg, ActionClass::WakeCmd);
            lemma_count_op(cfg, ActionClass::WakeCmd);
            lemma_count_cleanup(ActionClass::WakeCmd);
            lemma_count_idle(cfg, ActionClass::WakeCmd);
            lemma_branch_no_reader(cfg, raw);
            let t = cycle_trace(cfg, oc);
            let prefix = detection_prefix(cfg);
            let mid: Seq<Action> = if auth_ok {
                op_seq(cfg)
            } else {
                Seq::empty()
            };
            assert(t == prefix + mid + finish_seq(cfg, raw));
            assert(t.first() == prefix[0]);
            assert(idle_seq(cfg).len() == 1);
            assert(t.last() == idle_seq(cfg)[0]);
        }
    }
}

/// Across two consecutive cycles, whatever branches each took, the traces
/// simply concatenate, so the first cycle's closing inter-poll delay
/// stands in the combined trace strictly before the second cycle's
/// wake-up attempt.
pub proof fn delay_elapses_before_next_wake(cfg: ConfigV, first: CycleOutcome, second: CycleOutcome)
    requires
        cycle_wf(first),
        cycle_wf(second),
    ensures
        run(cfg, PhaseV::Idle, cycle_events(first) + cycle_events(second)).0 == PhaseV::Idle,
        run(cfg, PhaseV::Idle, cycle_events(first) + cycle_events(second)).1 == cycle_trace(
            cfg,
            first,
        ) + cycle_trace(cfg, second),
        cycle_trace(cfg, first).last() == (Action::DelayMs { ms: cfg.poll_interval_ms }),
        cycle_trace(cfg, second).first() == Action::Wake,
{
    delay_closes_every_cycle(cfg, first);
    delay_closes_every_cycle(cfg, second);
    lemma_run_append(cfg, PhaseV::Idle, cycle_events(first), cycle_events(second));
}

} // verus!
