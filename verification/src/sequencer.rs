//! The actuation sequencer and the failure indication.
//!
//! An authorized match drives the actuator through one open-loop timed
//! profile, `Locked -> Unlocking -> Unlocked -> Locking -> Locked`,
//! synchronized with the positive indicator and the auxiliary power rail.
//! There is no position feedback: correctness of the physical motion rests
//! on the duty set-points and hold durations alone. A mismatch instead
//! blinks the negative indicator a fixed number of times and never touches
//! the actuator or the rail.

use vstd::prelude::*;

use crate::actions::Action;
use crate::config::{lock_duty, unlock_duty, Config, ConfigV, BLINK_COUNT};

verus! {

/// Phase of the actuation state machine.
#[derive(Debug, Clone, Copy, PartialEq, Eq)]
pub enum LockPhase {
    Locked,
    Unlocking,
    Unlocked,
    Locking,
}

/// The phase entered when the current phase completes.
pub open spec fn lock_next(p: LockPhase) -> LockPhase {
    match p {
        LockPhase::Locked => LockPhase::Unlocking,
        LockPhase::Unlocking => LockPhase::Unlocked,
        LockPhase::Unlocked => LockPhase::Locking,
        LockPhase::Locking => LockPhase::Locked,
    }
}

/// The actions performed on leaving a phase (entering `lock_next` of it).
/// Leaving `Locked`: power the rail, signal success, command the unlocked
/// position and enable the PWM output. Leaving `Unlocking`: hold at the
/// unlocked position. Leaving `Unlocked`: command the locked position and
/// hold while the actuator travels. Leaving `Locking`: signal off, rail off.
pub open spec fn phase_emit(cfg: ConfigV, p: LockPhase) -> Seq<Action> {
    match p {
        LockPhase::Locked => seq![
            Action::RailOn,
            Action::TogglePositive,
            Action::SetDuty { duty: unlock_duty(cfg) },
            Action::EnablePwm,
        ],
        LockPhase::Unlocking => seq![Action::DelayMs { ms: cfg.unlock_hold_ms }],
        LockPhase::Unlocked => seq![
            Action::SetDuty { duty: lock_duty(cfg) },
            Action::DelayMs { ms: cfg.lock_hold_ms },
        ],
        LockPhase::Locking => seq![Action::TogglePositive, Action::RailOff],
    }
}

/// The full actuation profile: one pass of the lock-phase machine.
pub open spec fn actuation_seq(cfg: ConfigV) -> Seq<Action> {
    seq![
        Action::RailOn,
        Action::TogglePositive,
        Action::SetDuty { duty: unlock_duty(cfg) },
        Action::EnablePwm,
        Action::DelayMs { ms: cfg.unlock_hold_ms },
        Action::SetDuty { duty: lock_duty(cfg) },
        Action::DelayMs { ms: cfg.lock_hold_ms },
        Action::TogglePositive,
        Action::RailOff,
    ]
}

/// The first `n` blinks of the failure indication: each blink is a delay,
/// a negative-indicator toggle, and a further delay.
pub open spec fn blink_seq(cfg: ConfigV, n: nat) -> Seq<Action>
    decreases n,
{
    if n == 0 {
        Seq::empty()
    } else {
        blink_seq(cfg, (n - 1) as nat) + seq![
            Action::DelayMs { ms: cfg.blink_interval_ms },
            Action::ToggleNegative,
            Action::DelayMs { ms: cfg.blink_interval_ms },
        ]
    }
}

/// The failure indication shown for an unauthorized identifier.
pub open spec fn indication_seq(cfg: ConfigV) -> Seq<Action> {
    blink_seq(cfg, BLINK_COUNT as nat)
}

/// A path through the lock-phase machine: consecutive phases follow
/// `lock_next`.
pub open spec fn valid_phase_path(ps: Seq<LockPhase>) -> bool {
    forall|i: int| 0 <= i < ps.len() - 1 ==> ps[i + 1] == lock_next(#[trigger] ps[i])
}

/// The actions emitted along a phase path (one `phase_emit` per phase left).
pub open spec fn emits_along(cfg: ConfigV, ps: Seq<LockPhase>) -> Seq<Action>
    decreases ps.len(),
{
    if ps.len() <= 1 {
        Seq::empty()
    } else {
        phase_emit(cfg, ps[0]) + emits_along(cfg, ps.drop_first())
    }
}

/// The phases of one full actuation, in order.
pub open spec fn full_lock_cycle() -> Seq<LockPhase> {
    seq![
        LockPhase::Locked,
        LockPhase::Unlocking,
        LockPhase::Unlocked,
        LockPhase::Locking,
        LockPhase::Locked,
    ]
}

/// The actuation profile is exactly one pass of the lock-phase machine:
/// it starts and ends `Locked`, visits `Unlocking`, `Unlocked` and
/// `Locking` once each in that order, and its emitted actions are the
/// concatenation of the four phase transitions.
#[verifier::rlimit(100)]
pub proof fn lemma_actuation_is_one_lock_cycle(cfg: ConfigV)
    ensures
        valid_phase_path(full_lock_cycle()),
        full_lock_cycle().first() == LockPhase::Locked,
        full_lock_cycle().last() == LockPhase::Locked,
        emits_along(cfg, full_lock_cycle()) == actuation_seq(cfg),
{
    let ps = full_lock_cycle();
    assert forall|i: int| 0 <= i < ps.len() - 1 implies ps[i + 1] == lock_next(#[trigger] ps[i]) by {
        assert(ps[0] == LockPhase::Locked);
        assert(ps[1] == LockPhase::Unlocking);
        assert(ps[2] == LockPhase::Unlocked);
        assert(ps[3] == LockPhase::Locking);
        assert(ps[4] == LockPhase::Locked);
    }
    let e1 = seq![LockPhase::Locked];
    let e2 = seq![LockPhase::Locking, LockPhase::Locked];
    let e3 = seq![LockPhase::Unlocked, LockPhase::Locking, LockPhase::Locked];
    let e4 = seq![
        LockPhase::Unlocking,
        LockPhase::Unlocked,
        LockPhase::Locking,
        LockPhase::Locked,
    ];
    assert(emits_along(cfg, e1) == Seq::<Action>::empty());
    assert(e2.drop_first() =~= e1);
    assert(emits_along(cfg, e2) == phase_emit(cfg, LockPhase::Locking) + emits_along(cfg, e1));
    assert(e3.drop_first() =~= e2);
    assert(emits_along(cfg, e3) == phase_emit(cfg, LockPhase::Unlocked) + emits_along(cfg, e2));
    assert(e4.drop_first() =~= e3);
    assert(emits_along(cfg, e4) == phase_emit(cfg, LockPhase::Unlocking) + emits_along(cfg, e3));
    assert(ps.drop_first() =~= e4);
    assert(emits_along(cfg, ps) == phase_emit(cfg, LockPhase::Locked) + emits_along(cfg, e4));
    assert(emits_along(cfg, ps) =~= actuation_seq(cfg));
}

/// Builds the actuation profile for the configured duty range and holds.
pub fn actuation_cycle(cfg: &Config) -> (v: Vec<Action>)
    ensures
        v@ == actuation_seq(cfg@),
{
    let mut v: Vec<Action> = Vec::new();
    v.push(Action::RailOn);
    v.push(Action::TogglePositive);
    v.push(Action::SetDuty { duty: cfg.max_duty / 10 });
    v.push(Action::EnablePwm);
    v.push(Action::DelayMs { ms: cfg.unlock_hold_ms });
    v.push(Action::SetDuty { duty: cfg.max_duty / 20 });
    v.push(Action::DelayMs { ms: cfg.lock_hold_ms });
    v.push(Action::TogglePositive);
    v.push(Action::RailOff);
    proof {
        assert(v@ =~= actuation_seq(cfg@));
    }
    v
}

/// Builds the failure indication for an unauthorized identifier.
pub fn failure_indication(cfg: &Config) -> (v: Vec<Action>)
    ensures
        v@ == indication_seq(cfg@),
{
    let mut v: Vec<Action> = Vec::new();
    let mut i: u32 = 0;
    while i < BLINK_COUNT
        invariant
            i <= BLINK_COUNT,
            v@ == blink_seq(cfg@, i as nat),
        decreases BLINK_COUNT - i,
    {
        v.push(Action::DelayMs { ms: cfg.blink_interval_ms });
        v.push(Action::ToggleNegative);
        v.push(Action::DelayMs { ms: cfg.blink_interval_ms });
        i = i + 1;
        proof {
            assert(v@ =~= blink_seq(cfg@, i as nat));
        }
    }
    v
}

} // verus!
