use fire_control::fsm::{
    has_transition, transition_allowed, BatteryVoltageChange, BatteryVoltageLow, Error, Event,
    EventKind, FireControl, FullAutoFire, HalfAutoNFire, Machine, POSTError, Post, PowerON,
    Preloading, PullFullTrigger, PullHalfTrigger, Ready, ReleaseTrigger, Safe, State, StateKind,
    SystemCurrentChange, TriggerMode,
};

fn context(post_passed: bool, trigger_mode: TriggerMode) -> FireControl {
    FireControl { post_passed, trigger_mode }
}

#[test]
fn test_machine_starts_in_power_on() {
    let m = Machine::new();
    assert_eq!(*m.state(), State::PowerON(PowerON {}));
}

#[test]
fn test_state_default_is_power_on() {
    assert_eq!(State::default(), State::PowerON(PowerON {}));
}

#[test]
fn test_post_reaches_ready_when_self_test_passes() {
    let mut m = Machine::new();
    assert_eq!(m.event(Event::POST(Post {})), Ok(()));
    assert_eq!(*m.state(), State::Ready(Ready {}));
}

#[test]
fn test_post_reaches_post_error_when_self_test_fails() {
    let mut m = Machine::with_context(context(false, TriggerMode::SAFE));
    assert_eq!(m.event(Event::POST(Post {})), Ok(()));
    assert_eq!(*m.state(), State::POSTError(POSTError {}));
}

#[test]
fn test_half_trigger_preloads() {
    let mut m = Machine::new();
    assert_eq!(m.event(Event::POST(Post {})), Ok(()));
    assert_eq!(m.event(Event::PullHalfTrigger(PullHalfTrigger {})), Ok(()));
    assert_eq!(*m.state(), State::Preloading(Preloading {}));
}

#[test]
fn test_full_trigger_in_safe_mode_stays_safe() {
    let mut m = Machine::with_context(context(true, TriggerMode::SAFE));
    assert_eq!(m.event(Event::POST(Post {})), Ok(()));
    assert_eq!(m.event(Event::PullHalfTrigger(PullHalfTrigger {})), Ok(()));
    assert_eq!(m.event(Event::PullFullTrigger(PullFullTrigger {})), Ok(()));
    assert_eq!(*m.state(), State::Safe(Safe {}));
    assert_eq!(m.event(Event::ReleaseTrigger(ReleaseTrigger {})), Ok(()));
    assert_eq!(*m.state(), State::Ready(Ready {}));
}

#[test]
fn test_full_trigger_in_semi_mode_fires_half_auto() {
    let mut m = Machine::with_context(context(true, TriggerMode::SEMI));
    assert_eq!(m.event(Event::POST(Post {})), Ok(()));
    assert_eq!(m.event(Event::PullHalfTrigger(PullHalfTrigger {})), Ok(()));
    assert_eq!(m.event(Event::PullFullTrigger(PullFullTrigger {})), Ok(()));
    assert_eq!(*m.state(), State::HalfAutoNFire(HalfAutoNFire {}));
    assert_eq!(m.event(Event::ReleaseTrigger(ReleaseTrigger {})), Ok(()));
    assert_eq!(*m.state(), State::Ready(Ready {}));
}

#[test]
fn test_full_trigger_in_auto_mode_fires_full_auto() {
    let mut m = Machine::with_context(context(true, TriggerMode::AUTO));
    assert_eq!(m.event(Event::POST(Post {})), Ok(()));
    assert_eq!(m.event(Event::PullHalfTrigger(PullHalfTrigger {})), Ok(()));
    assert_eq!(m.event(Event::PullFullTrigger(PullFullTrigger {})), Ok(()));
    assert_eq!(*m.state(), State::FullAutoFire(FullAutoFire {}));
    assert_eq!(m.event(Event::ReleaseTrigger(ReleaseTrigger {})), Ok(()));
    assert_eq!(*m.state(), State::Ready(Ready {}));
}

#[test]
fn test_battery_fault_reaches_battery_voltage_low_from_ready() {
    let mut m = Machine::new();
    assert_eq!(m.event(Event::POST(Post {})), Ok(()));
    assert_eq!(m.event(Event::BatteryVoltageChange(BatteryVoltageChange {})), Ok(()));
    assert_eq!(*m.state(), State::BatteryVoltageLow(BatteryVoltageLow {}));
}

#[test]
fn test_battery_fault_reaches_battery_voltage_low_from_firing_states() {
    // From Preloading, Safe, HalfAutoNFire and FullAutoFire alike, a battery
    // fault lands in BatteryVoltageLow.
    let setups: [(TriggerMode, bool); 4] = [
        (TriggerMode::SAFE, false),
        (TriggerMode::SAFE, true),
        (TriggerMode::SEMI, true),
        (TriggerMode::AUTO, true),
    ];
    for (mode, pull_full) in setups {
        let mut m = Machine::with_context(context(true, mode));
        assert_eq!(m.event(Event::POST(Post {})), Ok(()));
        assert_eq!(m.event(Event::PullHalfTrigger(PullHalfTrigger {})), Ok(()));
        if pull_full {
            assert_eq!(m.event(Event::PullFullTrigger(PullFullTrigger {})), Ok(()));
        }
        assert_eq!(m.event(Event::BatteryVoltageChange(BatteryVoltageChange {})), Ok(()));
        assert_eq!(*m.state(), State::BatteryVoltageLow(BatteryVoltageLow {}));
    }
}

#[test]
fn test_battery_voltage_low_accepts_nothing_further() {
    let mut m = Machine::new();
    assert_eq!(m.event(Event::POST(Post {})), Ok(()));
    assert_eq!(m.event(Event::BatteryVoltageChange(BatteryVoltageChange {})), Ok(()));
    let events = [
        Event::POST(Post {}),
        Event::BatteryVoltageChange(BatteryVoltageChange {}),
        Event::SystemCurrentChange(SystemCurrentChange {}),
        Event::PullHalfTrigger(PullHalfTrigger {}),
        Event::PullFullTrigger(PullFullTrigger {}),
        Event::ReleaseTrigger(ReleaseTrigger {}),
    ];
    for e in events {
        assert_eq!(m.event(e), Err(Error::NoSuchTransition));
        assert_eq!(*m.state(), State::BatteryVoltageLow(BatteryVoltageLow {}));
    }
}

#[test]
fn test_overcurrent_from_preloading_and_firing_states() {
    for mode in [TriggerMode::SEMI, TriggerMode::AUTO] {
        let mut m = Machine::with_context(context(true, mode));
        assert_eq!(m.event(Event::POST(Post {})), Ok(()));
        assert_eq!(m.event(Event::PullHalfTrigger(PullHalfTrigger {})), Ok(()));
        assert_eq!(m.event(Event::PullFullTrigger(PullFullTrigger {})), Ok(()));
        assert_eq!(m.event(Event::SystemCurrentChange(SystemCurrentChange {})), Ok(()));
        assert_eq!(*m.state(), fire_control::fsm::State::Overcurrent(fire_control::fsm::Overcurrent {}));
    }
    let mut m = Machine::new();
    assert_eq!(m.event(Event::POST(Post {})), Ok(()));
    assert_eq!(m.event(Event::PullHalfTrigger(PullHalfTrigger {})), Ok(()));
    assert_eq!(m.event(Event::SystemCurrentChange(SystemCurrentChange {})), Ok(()));
    assert_eq!(*m.state(), fire_control::fsm::State::Overcurrent(fire_control::fsm::Overcurrent {}));
}

#[test]
fn test_unlisted_pair_is_rejected_and_state_kept() {
    let mut m = Machine::new();
    // In PowerON only POST is listed; everything else is irrelevant.
    assert_eq!(
        m.event(Event::ReleaseTrigger(ReleaseTrigger {})),
        Err(Error::NoSuchTransition)
    );
    assert_eq!(*m.state(), State::PowerON(PowerON {}));
    assert_eq!(
        m.event(Event::SystemCurrentChange(SystemCurrentChange {})),
        Err(Error::NoSuchTransition)
    );
    assert_eq!(*m.state(), State::PowerON(PowerON {}));
}

#[test]
fn test_event_hooks_validate() {
    let ctx = context(true, TriggerMode::SAFE);
    assert_eq!(Post {}.on(&ctx), Ok(()));
    assert_eq!(BatteryVoltageChange {}.on(&ctx), Ok(()));
    assert_eq!(SystemCurrentChange {}.on(&ctx), Ok(()));
    assert_eq!(PullHalfTrigger {}.on(&ctx), Ok(()));
    assert_eq!(PullFullTrigger {}.on(&ctx), Ok(()));
    assert_eq!(ReleaseTrigger {}.on(&ctx), Ok(()));
}

#[test]
fn test_hooks_report_inconsistency_outside_the_table() {
    let ctx = context(true, TriggerMode::SAFE);
    // PowerON is never transitioned into, so its entry hook may not run.
    assert_eq!(PowerON {}.entry(), Err(Error::InternalInconsistency));
    // No transition leaves POSTError, so its exit hook may not run.
    assert_eq!(
        POSTError {}.exit(&ctx, EventKind::POST),
        Err(Error::InternalInconsistency)
    );
    // Ready's exit hook only decides for the events the table lists.
    assert_eq!(
        Ready {}.exit(&ctx, EventKind::ReleaseTrigger),
        Err(Error::InternalInconsistency)
    );
}

#[test]
fn test_exit_hooks_decide_listed_transitions() {
    let ctx = context(true, TriggerMode::AUTO);
    assert_eq!(
        PowerON {}.exit(&ctx, EventKind::POST),
        Ok(State::Ready(Ready {}))
    );
    assert_eq!(
        Ready {}.exit(&ctx, EventKind::PullHalfTrigger),
        Ok(State::Preloading(Preloading {}))
    );
    assert_eq!(
        Preloading {}.exit(&ctx, EventKind::PullFullTrigger),
        Ok(State::FullAutoFire(FullAutoFire {}))
    );
    assert_eq!(
        Safe {}.exit(&ctx, EventKind::ReleaseTrigger),
        Ok(State::Ready(Ready {}))
    );
    assert_eq!(
        HalfAutoNFire {}.exit(&ctx, EventKind::BatteryVoltageChange),
        Ok(State::BatteryVoltageLow(BatteryVoltageLow {}))
    );
}

#[test]
fn test_state_kinds_match_variants() {
    assert_eq!(State::PowerON(PowerON {}).kind(), StateKind::PowerON);
    assert_eq!(State::Ready(Ready {}).kind(), StateKind::Ready);
    assert_eq!(
        State::BatteryVoltageLow(BatteryVoltageLow {}).kind(),
        StateKind::BatteryVoltageLow
    );
    assert_eq!(Event::POST(Post {}).kind(), EventKind::POST);
    assert_eq!(
        Event::PullFullTrigger(PullFullTrigger {}).kind(),
        EventKind::PullFullTrigger
    );
}

#[test]
fn test_transition_table_exec_matches_declaration() {
    assert!(transition_allowed(StateKind::PowerON, EventKind::POST, StateKind::Ready));
    assert!(transition_allowed(StateKind::PowerON, EventKind::POST, StateKind::POSTError));
    assert!(!transition_allowed(StateKind::PowerON, EventKind::POST, StateKind::Safe));
    assert!(transition_allowed(
        StateKind::Preloading,
        EventKind::PullFullTrigger,
        StateKind::FullAutoFire
    ));
    assert!(!transition_allowed(
        StateKind::Ready,
        EventKind::PullFullTrigger,
        StateKind::Safe
    ));
    assert!(has_transition(StateKind::Ready, EventKind::PullHalfTrigger));
    assert!(!has_transition(StateKind::BatteryVoltageLow, EventKind::POST));
    assert!(!has_transition(StateKind::Overcurrent, EventKind::ReleaseTrigger));
}
