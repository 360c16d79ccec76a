//! Tests of the two state-change operations: a transition sends an exit
//! event to the old state and an enter event to the new state, while a
//! change-state simply changes to the new state. The optional hook
//! methods for each operation are invoked when states are changed, and
//! transition callbacks registered via the monitor are invoked.

use std::sync::{Arc, Mutex};

use frame_runtime::event::{NullEventCallback, NullTransitionCallback, TransitionCallback};
use frame_runtime::info::TransitionKind;
use frame_runtime::live::TransitionInstance;
use frame_runtime::machines::transition_sm::{Transition, TransitionState};

type PlainSm = Transition<NullEventCallback, NullTransitionCallback>;

struct TransitLog(Arc<Mutex<Vec<String>>>);

impl TransitionCallback for TransitLog {
    fn invoke(&self, event: &TransitionInstance) {
        let old_state = event.old_state.info().name.clone();
        let new_state = event.new_state.info().name.clone();
        match event.info.kind {
            TransitionKind::ChangeState => {
                self.0.lock().unwrap().push(format!("{}->>{}", old_state, new_state));
            }
            TransitionKind::Transition => {
                self.0.lock().unwrap().push(format!("{}->{}", old_state, new_state));
            }
        }
    }
}

struct ConsistencyCheck;

impl TransitionCallback for ConsistencyCheck {
    fn invoke(&self, event: &TransitionInstance) {
        let source_name = &event.info.source.name;
        let target_name = &event.info.target.name;
        let old_name = &event.old_state.info().name;
        let new_name = &event.new_state.info().name;
        assert_eq!(source_name, old_name);
        assert_eq!(target_name, new_name);
    }
}

struct IdLog(Arc<Mutex<Vec<u64>>>);

impl TransitionCallback for IdLog {
    fn invoke(&self, event: &TransitionInstance) {
        self.0.lock().unwrap().push(event.info.id);
    }
}

/// Test that transition works and triggers enter and exit events.
#[test]
fn transition_events() {
    let mut sm: PlainSm = Transition::new();
    sm.clear_all();
    sm.transit();
    assert_eq!(sm.state, TransitionState::S1);
    assert_eq!(sm.exits, vec!["S0"]);
    assert_eq!(sm.enters, vec!["S1"]);
}

/// Test that change-state works and does not trigger events.
#[test]
fn change_state_no_events() {
    let mut sm: PlainSm = Transition::new();
    sm.clear_all();
    sm.change();
    assert_eq!(sm.state, TransitionState::S1);
    sm.change();
    assert_eq!(sm.state, TransitionState::S2);
    sm.change();
    assert_eq!(sm.state, TransitionState::S3);
    sm.change();
    assert_eq!(sm.state, TransitionState::S4);
    assert!(sm.exits.is_empty());
    assert!(sm.enters.is_empty());
}

/// Test transition that triggers another transition in an enter event
/// handler.
#[test]
fn cascading_transition() {
    let mut sm: PlainSm = Transition::new();
    sm.change();
    sm.clear_all();
    assert_eq!(sm.state, TransitionState::S1);
    sm.transit();
    assert_eq!(sm.state, TransitionState::S3);
    assert_eq!(sm.exits, vec!["S1", "S2"]);
    assert_eq!(sm.enters, vec!["S2", "S3"]);
}

/// Test transition that triggers a change-state from an enter event
/// handler.
#[test]
fn cascading_change_state() {
    let mut sm: PlainSm = Transition::new();
    sm.change();
    sm.change();
    sm.change();
    sm.clear_all();
    assert_eq!(sm.state, TransitionState::S3);
    sm.transit();
    assert_eq!(sm.state, TransitionState::S0);
    assert_eq!(sm.exits, vec!["S3"]);
    assert_eq!(sm.enters, vec!["S4"]);
}

/// Test that the names of old/new state instances match the names of
/// expected states in the static transition info.
#[test]
fn consistent_transition_event() {
    let mut sm: Transition<NullEventCallback, ConsistencyCheck> = Transition::new();
    sm.event_monitor_mut().add_transition_callback(ConsistencyCheck);
    sm.transit();
    sm.transit();
    sm.transit();
    assert_eq!(sm.state, TransitionState::S0);
    sm.change();
    sm.change();
    sm.change();
    sm.change();
    assert_eq!(sm.state, TransitionState::S4);
}

/// Test transition callbacks.
#[test]
fn transition_callback() {
    let transits: Arc<Mutex<Vec<String>>> = Arc::new(Mutex::new(Vec::new()));
    let mut sm: Transition<NullEventCallback, TransitLog> = Transition::new();
    sm.event_monitor_mut().add_transition_callback(TransitLog(transits.clone()));
    sm.transit();
    assert_eq!(*transits.lock().unwrap(), vec!["S0->S1"]);
    transits.lock().unwrap().clear();
    sm.transit();
    assert_eq!(*transits.lock().unwrap(), vec!["S1->S2", "S2->S3"]);
}

/// Test change-state callbacks.
#[test]
fn change_state_callback() {
    let transits: Arc<Mutex<Vec<String>>> = Arc::new(Mutex::new(Vec::new()));
    let mut sm: Transition<NullEventCallback, TransitLog> = Transition::new();
    sm.event_monitor_mut().add_transition_callback(TransitLog(transits.clone()));
    sm.change();
    assert_eq!(*transits.lock().unwrap(), vec!["S0->>S1"]);
    transits.lock().unwrap().clear();
    sm.change();
    assert_eq!(*transits.lock().unwrap(), vec!["S1->>S2"]);
    transits.lock().unwrap().clear();
    sm.change();
    assert_eq!(*transits.lock().unwrap(), vec!["S2->>S3"]);
    transits.lock().unwrap().clear();
    sm.transit();
    assert_eq!(*transits.lock().unwrap(), vec!["S3->S4", "S4->>S0"]);
}

/// Test that transition IDs are correct.
#[test]
fn transition_ids() {
    let ids: Arc<Mutex<Vec<u64>>> = Arc::new(Mutex::new(Vec::new()));
    let mut sm: Transition<NullEventCallback, IdLog> = Transition::new();
    sm.event_monitor_mut().add_transition_callback(IdLog(ids.clone()));
    sm.transit();
    sm.transit();
    sm.transit();
    assert_eq!(*ids.lock().unwrap(), vec![0, 2, 4, 7, 9]);
    ids.lock().unwrap().clear();
    sm.change();
    sm.change();
    sm.change();
    sm.change();
    assert_eq!(*ids.lock().unwrap(), vec![1, 3, 6, 8]);
}

/// Test transition hook method.
#[test]
fn transition_hook() {
    let mut sm: PlainSm = Transition::new();
    sm.transit();
    assert_eq!(sm.hooks, vec!["S0->S1"]);
    sm.clear_all();
    sm.transit();
    assert_eq!(sm.hooks, vec!["S1->S2", "S2->S3"]);
}

/// Test change-state hook method.
#[test]
fn change_state_hook() {
    let mut sm: PlainSm = Transition::new();
    sm.change();
    assert_eq!(sm.hooks, vec!["S0->>S1"]);
    sm.clear_all();
    sm.change();
    assert_eq!(sm.hooks, vec!["S1->>S2"]);
    sm.clear_all();
    sm.change();
    assert_eq!(sm.hooks, vec!["S2->>S3"]);
    sm.clear_all();
    sm.transit();
    assert_eq!(sm.hooks, vec!["S3->S4", "S4->>S0"]);
}
