use trolley_lock::actions::Action;
use trolley_lock::config::Config;
use trolley_lock::controller::{step, Event, Phase};
use trolley_lock::identifier::{classify, AllowList};

fn trolley_config(write: bool) -> Config {
    Config {
        allowlist: AllowList::new(vec![classify(vec![106, 205, 135, 25]).unwrap()]),
        key: vec![0xFF; 6],
        sector: 1,
        write,
        max_duty: 1280,
        unlock_hold_ms: 208,
        lock_hold_ms: 104,
        blink_interval_ms: 104,
        poll_interval_ms: 1000,
    }
}

/// Feeds the machine one cycle's worth of events, starting from `Idle`,
/// and collects every emitted action; the machine must end back in `Idle`.
fn run_cycle(cfg: &Config, events: Vec<Event>) -> Vec<Action> {
    let mut state = Phase::Idle;
    let mut trace: Vec<Action> = Vec::new();
    for ev in events {
        let (next, mut batch) = step(cfg, state, ev);
        state = next;
        trace.append(&mut batch);
    }
    assert!(matches!(state, Phase::Idle));
    trace
}

fn count(trace: &[Action], pred: fn(&Action) -> bool) -> usize {
    trace.iter().filter(|a| pred(a)).count()
}

fn session_events(raw: Vec<u8>, auth_ok: bool, op_ok: bool) -> Vec<Event> {
    let mut evs = vec![
        Event::Completed,
        Event::WakeDone { card_present: true },
        Event::SelectDone { raw: Some(raw) },
        Event::AuthDone { ok: auth_ok },
    ];
    if auth_ok {
        evs.push(Event::OpDone { ok: op_ok });
    }
    evs
}

#[test]
fn authorized_card_runs_actuation() {
    let cfg = trolley_config(false);
    let trace = run_cycle(&cfg, session_events(vec![106, 205, 135, 25], true, true));
    assert_eq!(
        trace,
        vec![
            Action::Wake,
            Action::Select,
            Action::Authenticate { block: 1 },
            Action::ReadBlock { block: 1 },
            Action::RailOn,
            Action::TogglePositive,
            Action::SetDuty { duty: 128 },
            Action::EnablePwm,
            Action::DelayMs { ms: 208 },
            Action::SetDuty { duty: 64 },
            Action::DelayMs { ms: 104 },
            Action::TogglePositive,
            Action::RailOff,
            Action::Halt,
            Action::StopSession,
            Action::DelayMs { ms: 1000 },
        ]
    );
}

#[test]
fn authorized_card_toggles_positive_exactly_twice() {
    let cfg = trolley_config(false);
    let trace = run_cycle(&cfg, session_events(vec![106, 205, 135, 25], true, true));
    assert_eq!(count(&trace, |a| matches!(a, Action::TogglePositive)), 2);
    assert_eq!(count(&trace, |a| matches!(a, Action::ToggleNegative)), 0);
    let duties: Vec<u16> = trace
        .iter()
        .filter_map(|a| match a {
            Action::SetDuty { duty } => Some(*duty),
            _ => None,
        })
        .collect();
    assert_eq!(duties, vec![128, 64]);
}

#[test]
fn unauthorized_card_blinks_and_never_actuates() {
    let cfg = trolley_config(false);
    let trace = run_cycle(&cfg, session_events(vec![1, 2, 3, 4], true, true));
    assert_eq!(count(&trace, |a| matches!(a, Action::ToggleNegative)), 12);
    assert_eq!(count(&trace, |a| matches!(a, Action::TogglePositive)), 0);
    assert_eq!(
        count(&trace, |a| matches!(
            a,
            Action::SetDuty { .. } | Action::EnablePwm | Action::RailOn | Action::RailOff
        )),
        0
    );
}

#[test]
fn no_card_goes_straight_to_delay() {
    let cfg = trolley_config(false);
    let trace = run_cycle(
        &cfg,
        vec![Event::Completed, Event::WakeDone { card_present: false }],
    );
    assert_eq!(trace, vec![Action::Wake, Action::DelayMs { ms: 1000 }]);
}

#[test]
fn select_failure_goes_straight_to_delay() {
    let cfg = trolley_config(false);
    let trace = run_cycle(
        &cfg,
        vec![
            Event::Completed,
            Event::WakeDone { card_present: true },
            Event::SelectDone { raw: None },
        ],
    );
    assert_eq!(
        trace,
        vec![Action::Wake, Action::Select, Action::DelayMs { ms: 1000 }]
    );
}

#[test]
fn unsupported_identifier_goes_straight_to_delay() {
    let cfg = trolley_config(false);
    let trace = run_cycle(
        &cfg,
        vec![
            Event::Completed,
            Event::WakeDone { card_present: true },
            Event::SelectDone { raw: Some(vec![1, 2, 3, 4, 5]) },
        ],
    );
    assert_eq!(
        trace,
        vec![Action::Wake, Action::Select, Action::DelayMs { ms: 1000 }]
    );
}

#[test]
fn cleanup_runs_once_whatever_the_outcome() {
    let cfg = trolley_config(false);
    for (raw, auth_ok, op_ok) in [
        (vec![106, 205, 135, 25], true, true),
        (vec![106, 205, 135, 25], true, false),
        (vec![106, 205, 135, 25], false, false),
        (vec![1, 2, 3, 4], true, true),
        (vec![1, 2, 3, 4], false, false),
        (vec![1, 2, 3, 4, 5, 6, 7], true, false),
    ] {
        let trace = run_cycle(&cfg, session_events(raw, auth_ok, op_ok));
        assert_eq!(count(&trace, |a| matches!(a, Action::Halt)), 1);
        assert_eq!(count(&trace, |a| matches!(a, Action::StopSession)), 1);
    }
}

#[test]
fn read_and_write_are_mutually_exclusive() {
    for write in [false, true] {
        let cfg = trolley_config(write);
        for auth_ok in [false, true] {
            let trace = run_cycle(
                &cfg,
                session_events(vec![106, 205, 135, 25], auth_ok, true),
            );
            let reads = count(&trace, |a| matches!(a, Action::ReadBlock { .. }));
            let writes = count(&trace, |a| matches!(a, Action::WriteBlock { .. }));
            assert!(reads + writes <= 1);
            assert_eq!(reads, usize::from(auth_ok && !write));
            assert_eq!(writes, usize::from(auth_ok && write));
        }
    }
}

#[test]
fn auth_failure_still_runs_feedback_branch() {
    let cfg = trolley_config(false);
    let ok = run_cycle(&cfg, session_events(vec![106, 205, 135, 25], false, false));
    assert_eq!(count(&ok, |a| matches!(a, Action::TogglePositive)), 2);
    let bad = run_cycle(&cfg, session_events(vec![1, 2, 3, 4], false, false));
    assert_eq!(count(&bad, |a| matches!(a, Action::ToggleNegative)), 12);
}

#[test]
fn every_branch_ends_with_the_poll_delay() {
    let cfg = trolley_config(false);
    let cycles = vec![
        run_cycle(
            &cfg,
            vec![Event::Completed, Event::WakeDone { card_present: false }],
        ),
        run_cycle(
            &cfg,
            vec![
                Event::Completed,
                Event::WakeDone { card_present: true },
                Event::SelectDone { raw: None },
            ],
        ),
        run_cycle(&cfg, session_events(vec![106, 205, 135, 25], true, true)),
        run_cycle(&cfg, session_events(vec![1, 2, 3, 4], true, true)),
        run_cycle(&cfg, session_events(vec![1, 2, 3, 4], false, false)),
    ];
    for trace in cycles {
        assert_eq!(trace.first(), Some(&Action::Wake));
        assert_eq!(trace.last(), Some(&Action::DelayMs { ms: 1000 }));
        assert_eq!(count(&trace, |a| matches!(a, Action::Wake)), 1);
    }
}

#[test]
fn delay_precedes_next_wake_across_cycles() {
    let cfg = trolley_config(false);
    let mut events = session_events(vec![1, 2, 3, 4], true, true);
    events.extend(vec![
        Event::Completed,
        Event::WakeDone { card_present: false },
    ]);
    let mut state = Phase::Idle;
    let mut trace: Vec<Action> = Vec::new();
    for ev in events {
        let (next, mut batch) = step(&cfg, state, ev);
        state = next;
        trace.append(&mut batch);
    }
    assert!(matches!(state, Phase::Idle));
    let wakes: Vec<usize> = trace
        .iter()
        .enumerate()
        .filter_map(|(i, a)| matches!(a, Action::Wake).then_some(i))
        .collect();
    assert_eq!(wakes.len(), 2);
    assert_eq!(trace[wakes[1] - 1], Action::DelayMs { ms: 1000 });
}

#[test]
fn long_identifier_can_be_allowlisted() {
    let mut cfg = trolley_config(false);
    cfg.allowlist = AllowList::new(vec![classify(vec![9, 8, 7, 6, 5, 4, 3]).unwrap()]);
    let trace = run_cycle(&cfg, session_events(vec![9, 8, 7, 6, 5, 4, 3], true, true));
    assert_eq!(count(&trace, |a| matches!(a, Action::TogglePositive)), 2);
    let other = run_cycle(&cfg, session_events(vec![9, 8, 7, 6], true, true));
    assert_eq!(count(&other, |a| matches!(a, Action::ToggleNegative)), 12);
}
