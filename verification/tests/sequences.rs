use trolley_lock::actions::Action;
use trolley_lock::config::Config;
use trolley_lock::identifier::AllowList;
use trolley_lock::sequencer::{actuation_cycle, failure_indication};
use trolley_lock::session::{session_cleanup, session_op};

fn bench_config(write: bool) -> Config {
    Config {
        allowlist: AllowList::new(vec![]),
        key: vec![0xFF; 6],
        sector: 1,
        write,
        max_duty: 1280,
        unlock_hold_ms: 208,
        lock_hold_ms: 104,
        blink_interval_ms: 104,
        poll_interval_ms: 1000,
    }
}

#[test]
fn actuation_profile_exact() {
    let v = actuation_cycle(&bench_config(false));
    assert_eq!(
        v,
        vec![
            Action::RailOn,
            Action::TogglePositive,
            Action::SetDuty { duty: 128 },
            Action::EnablePwm,
            Action::DelayMs { ms: 208 },
            Action::SetDuty { duty: 64 },
            Action::DelayMs { ms: 104 },
            Action::TogglePositive,
            Action::RailOff,
        ]
    );
}

#[test]
fn actuation_duty_setpoints_are_fractions_of_full_scale() {
    let mut cfg = bench_config(false);
    cfg.max_duty = 20000;
    let v = actuation_cycle(&cfg);
    let duties: Vec<u16> = v
        .iter()
        .filter_map(|a| match a {
            Action::SetDuty { duty } => Some(*duty),
            _ => None,
        })
        .collect();
    assert_eq!(duties, vec![2000, 1000]);
}

#[test]
fn failure_indication_blinks_twelve_times() {
    let v = failure_indication(&bench_config(false));
    assert_eq!(v.len(), 36);
    let toggles = v
        .iter()
        .filter(|a| matches!(a, Action::ToggleNegative))
        .count();
    assert_eq!(toggles, 12);
    assert_eq!(v[0], Action::DelayMs { ms: 104 });
    assert_eq!(v[1], Action::ToggleNegative);
    assert_eq!(v[2], Action::DelayMs { ms: 104 });
}

#[test]
fn failure_indication_never_touches_actuator() {
    let v = failure_indication(&bench_config(false));
    assert!(v.iter().all(|a| !matches!(
        a,
        Action::SetDuty { .. }
            | Action::EnablePwm
            | Action::RailOn
            | Action::RailOff
            | Action::TogglePositive
    )));
}

#[test]
fn session_reads_in_read_mode() {
    assert_eq!(
        session_op(&bench_config(false)),
        vec![Action::ReadBlock { block: 1 }]
    );
}

#[test]
fn session_writes_in_write_mode() {
    assert_eq!(
        session_op(&bench_config(true)),
        vec![Action::WriteBlock { block: 1 }]
    );
}

#[test]
fn cleanup_is_halt_then_stop() {
    assert_eq!(session_cleanup(), vec![Action::Halt, Action::StopSession]);
}
