use fire_control::compiler::{CompileError, MachineDef, TransitionDef};
use fire_control::fsm::fire_control_table;

fn transition(event: &str, from: &str, to: &str) -> TransitionDef {
    TransitionDef {
        event: event.to_string(),
        from: from.to_string(),
        to: to.to_string(),
    }
}

fn small_def() -> MachineDef {
    MachineDef {
        context: "Controller".to_string(),
        states: vec!["Idle".to_string(), "Busy".to_string()],
        events: vec!["Start".to_string(), "Stop".to_string()],
        transitions: vec![transition("Start", "Idle", "Busy"), transition("Stop", "Busy", "Idle")],
    }
}

#[test]
fn test_small_declaration_compiles() {
    let table = small_def().compile().unwrap();
    assert_eq!(table.state_count(), 2);
    assert_eq!(table.event_count(), 2);
    assert_eq!(table.transition_count(), 2);
    assert!(table.allows(0, 0, 1));
    assert!(table.allows(1, 1, 0));
    assert!(!table.allows(0, 1, 1));
    assert!(table.has_pair(0, 0));
    assert!(table.has_pair(1, 1));
    assert!(!table.has_pair(0, 1));
    assert!(!table.has_pair(1, 0));
}

#[test]
fn test_missing_context_is_refused() {
    let mut def = small_def();
    def.context = String::new();
    assert_eq!(def.compile().unwrap_err(), CompileError::MissingContext);
}

#[test]
fn test_unresolved_event_is_refused() {
    let mut def = small_def();
    def.transitions.push(transition("Reset", "Busy", "Idle"));
    assert_eq!(def.compile().unwrap_err(), CompileError::UnresolvedEvent(2));
}

#[test]
fn test_unresolved_from_state_is_refused() {
    let mut def = small_def();
    def.transitions.insert(0, transition("Start", "Sleeping", "Busy"));
    assert_eq!(def.compile().unwrap_err(), CompileError::UnresolvedFromState(0));
}

#[test]
fn test_unresolved_to_state_is_refused() {
    let mut def = small_def();
    def.transitions.push(transition("Stop", "Busy", "Halted"));
    assert_eq!(def.compile().unwrap_err(), CompileError::UnresolvedToState(2));
}

#[test]
fn test_event_resolution_is_checked_before_states() {
    // When several names of one transition are unknown, the event is
    // reported first.
    let mut def = small_def();
    def.transitions.push(transition("Reset", "Sleeping", "Halted"));
    assert_eq!(def.compile().unwrap_err(), CompileError::UnresolvedEvent(2));
}

#[test]
fn test_duplicate_pairs_accumulate_into_one_destination_set() {
    let mut def = small_def();
    def.states.push("Stalled".to_string());
    def.transitions.push(transition("Start", "Idle", "Stalled"));
    let table = def.compile().unwrap();
    assert_eq!(table.transition_count(), 3);
    assert!(table.allows(0, 0, 1));
    assert!(table.allows(0, 0, 2));
    assert!(table.has_pair(0, 0));
}

#[test]
fn test_fire_control_declaration_compiles_to_its_table() {
    let table = fire_control_table();
    assert_eq!(table.state_count(), 9);
    assert_eq!(table.event_count(), 6);
    assert_eq!(table.transition_count(), 17);
    // POST: PowerON(0) may reach Ready(2) or POSTError(1), nothing else.
    assert!(table.allows(0, 0, 2));
    assert!(table.allows(0, 0, 1));
    assert!(!table.allows(0, 0, 0));
    assert!(!table.allows(2, 0, 2));
    // PullFullTrigger(4) from Preloading(5): Safe(6), HalfAutoNFire(7),
    // FullAutoFire(8).
    assert!(table.allows(5, 4, 6));
    assert!(table.allows(5, 4, 7));
    assert!(table.allows(5, 4, 8));
    assert!(!table.allows(5, 4, 2));
    // BatteryVoltageLow(3) has no outgoing pair at all.
    for event in 0..6 {
        assert!(!table.has_pair(3, event));
    }
}

#[test]
fn test_fire_control_declaration_names() {
    let def = fire_control::fsm::fire_control_def();
    assert_eq!(def.context, "FireControl");
    assert_eq!(def.states.len(), 9);
    assert_eq!(def.events.len(), 6);
    assert_eq!(def.transitions.len(), 17);
    assert_eq!(def.states[0], "PowerON");
    assert_eq!(def.events[0], "POST");
    assert_eq!(def.transitions[0].event, "POST");
    assert_eq!(def.transitions[0].from, "PowerON");
    assert_eq!(def.transitions[0].to, "Ready");
}
