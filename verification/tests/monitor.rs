//! Tests of the event monitor itself: callback invocation and ordering,
//! and the bounded, unbounded and disabled history configurations.

use std::sync::{Arc, Mutex};

use frame_runtime::environment::Environment;
use frame_runtime::event::{EventCallback, EventMonitor, TransitionCallback};
use frame_runtime::info::{MethodInfo, StateInfo, TransitionInfo, TransitionKind};
use frame_runtime::live::{MethodInstance, StateInstance, TransitionInstance};

struct MonitorNameTape(Arc<Mutex<Vec<String>>>);

impl EventCallback for MonitorNameTape {
    fn invoke(&self, event: &MethodInstance) {
        self.0.lock().unwrap().push(event.info().name.clone());
    }
}

struct MonitorFieldTape {
    tape: Arc<Mutex<Vec<String>>>,
    which: u8,
}

impl TransitionCallback for MonitorFieldTape {
    fn invoke(&self, transition: &TransitionInstance) {
        let s = match self.which {
            0 => format!("old: {}", transition.old_state.info().name),
            1 => format!("new: {}", transition.new_state.info().name),
            _ => format!("kind: {:?}", transition.info.kind),
        };
        self.tape.lock().unwrap().push(s);
    }
}

fn monitor_event(name: &str) -> MethodInstance {
    MethodInstance::new(
        MethodInfo { name: name.to_string(), parameters: Vec::new(), return_type: None },
        Environment::empty(),
    )
}

fn monitor_state(name: &str) -> StateInstance {
    StateInstance::new(
        StateInfo {
            name: name.to_string(),
            parent: None,
            parameters: Vec::new(),
            variables: Vec::new(),
            handlers: Vec::new(),
            is_stack_pop: false,
        },
        Environment::empty(),
        Environment::empty(),
    )
}

fn monitor_transition(id: u64, kind: TransitionKind, from: &str, to: &str) -> TransitionInstance {
    let info = TransitionInfo {
        id,
        kind,
        event: MethodInfo { name: "next".to_string(), parameters: Vec::new(), return_type: None },
        label: String::new(),
        source: monitor_state(from).info,
        target: monitor_state(to).info,
    };
    TransitionInstance::change_state(info, monitor_state(from), monitor_state(to))
}

fn history_names(em: &EventMonitor<MonitorNameTape, MonitorFieldTape>) -> Vec<String> {
    em.event_history().iter().map(|e| e.info().name.clone()).collect()
}

#[test]
fn event_sent_callbacks() {
    let tape: Arc<Mutex<Vec<String>>> = Arc::new(Mutex::new(Vec::new()));
    let mut em: EventMonitor<MonitorNameTape, MonitorFieldTape> = EventMonitor::default();
    em.add_event_sent_callback(MonitorNameTape(tape.clone()));
    em.event_sent(&monitor_event("next"));
    em.event_sent(&monitor_event("A:>"));
    em.event_sent(&monitor_event("B:>"));
    em.event_sent(&monitor_event("next"));
    em.event_sent(&monitor_event("A:<"));
    em.event_sent(&monitor_event("B:<"));
    em.event_sent(&monitor_event("next"));
    assert_eq!(
        *tape.lock().unwrap(),
        vec!["next", "A:>", "B:>", "next", "A:<", "B:<", "next"]
    );
}

#[test]
fn event_handled_callbacks() {
    let tape: Arc<Mutex<Vec<String>>> = Arc::new(Mutex::new(Vec::new()));
    let mut em: EventMonitor<MonitorNameTape, MonitorFieldTape> = EventMonitor::default();
    em.add_event_handled_callback(MonitorNameTape(tape.clone()));
    em.event_handled(monitor_event("B:<"));
    em.event_handled(monitor_event("A:>"));
    em.event_handled(monitor_event("next"));
    em.event_handled(monitor_event("A:<"));
    em.event_handled(monitor_event("B:>"));
    em.event_handled(monitor_event("next"));
    assert_eq!(
        *tape.lock().unwrap(),
        vec!["B:<", "A:>", "next", "A:<", "B:>", "next"]
    );
}

#[test]
fn transition_callbacks() {
    let tape: Arc<Mutex<Vec<String>>> = Arc::new(Mutex::new(Vec::new()));
    let mut em: EventMonitor<MonitorNameTape, MonitorFieldTape> = EventMonitor::default();
    em.add_transition_callback(MonitorFieldTape { tape: tape.clone(), which: 0 });
    em.add_transition_callback(MonitorFieldTape { tape: tape.clone(), which: 1 });
    em.add_transition_callback(MonitorFieldTape { tape: tape.clone(), which: 2 });

    em.transition_occurred(monitor_transition(0, TransitionKind::Transition, "A", "B"));
    assert_eq!(
        *tape.lock().unwrap(),
        vec!["old: A", "new: B", "kind: Transition"]
    );
    tape.lock().unwrap().clear();

    em.transition_occurred(monitor_transition(1, TransitionKind::ChangeState, "B", "A"));
    assert_eq!(
        *tape.lock().unwrap(),
        vec!["old: B", "new: A", "kind: ChangeState"]
    );
}

#[test]
fn event_history_finite() {
    let mut em: EventMonitor<MonitorNameTape, MonitorFieldTape> = EventMonitor::new(
        Some(5),
        Some(1),
    );
    assert!(em.event_history().is_empty());

    em.event_handled(monitor_event("next"));
    em.event_handled(monitor_event("A:>"));
    em.event_handled(monitor_event("B:>"));
    assert_eq!(history_names(&em), vec!["next", "A:>", "B:>"]);

    em.event_handled(monitor_event("B:<"));
    em.event_handled(monitor_event("next"));
    em.event_handled(monitor_event("A:<"));
    em.event_handled(monitor_event("next"));
    assert_eq!(history_names(&em), vec!["B:>", "B:<", "next", "A:<", "next"]);

    em.clear_event_history();
    assert!(em.event_history().is_empty());

    em.event_handled(monitor_event("A:>"));
    em.event_handled(monitor_event("B:>"));
    assert_eq!(history_names(&em), vec!["A:>", "B:>"]);
}

#[test]
fn event_history_infinite() {
    let mut em: EventMonitor<MonitorNameTape, MonitorFieldTape> = EventMonitor::new(
        None,
        Some(1),
    );
    assert!(em.event_history().is_empty());

    em.event_handled(monitor_event("next"));
    em.event_handled(monitor_event("A:>"));
    em.event_handled(monitor_event("B:>"));
    assert_eq!(history_names(&em), vec!["next", "A:>", "B:>"]);

    em.event_handled(monitor_event("B:<"));
    em.event_handled(monitor_event("next"));
    em.event_handled(monitor_event("A:<"));
    em.event_handled(monitor_event("next"));
    assert_eq!(
        history_names(&em),
        vec!["next", "A:>", "B:>", "B:<", "next", "A:<", "next"]
    );

    em.clear_event_history();
    assert!(em.event_history().is_empty());

    em.event_handled(monitor_event("A:>"));
    em.event_handled(monitor_event("B:>"));
    assert_eq!(history_names(&em), vec!["A:>", "B:>"]);
}

#[test]
fn event_history_disabled() {
    let mut em: EventMonitor<MonitorNameTape, MonitorFieldTape> = EventMonitor::new(
        Some(0),
        Some(1),
    );
    assert!(em.event_history().is_empty());

    em.event_handled(monitor_event("next"));
    em.event_handled(monitor_event("A:>"));
    em.event_handled(monitor_event("B:>"));
    assert!(em.event_history().is_empty());

    em.clear_event_history();
    assert!(em.event_history().is_empty());
}

#[test]
fn transition_history_finite() {
    let mut em: EventMonitor<MonitorNameTape, MonitorFieldTape> = EventMonitor::new(
        Some(0),
        Some(3),
    );
    let a2b = monitor_transition(0, TransitionKind::Transition, "A", "B");
    let b2a = monitor_transition(1, TransitionKind::ChangeState, "B", "A");

    assert!(em.last_transition().is_none());
    assert!(em.transition_history().is_empty());

    em.transition_occurred(a2b.clone());
    em.transition_occurred(b2a.clone());
    assert_eq!(em.transition_history().len(), 2);

    let last = em.last_transition().unwrap();
    assert_eq!(last.info.id, 1);
    assert_eq!(last.old_state.info().name, "B");
    assert_eq!(last.new_state.info().name, "A");
    let first = em.transition_history().get(0).unwrap();
    assert_eq!(first.info.id, 0);
    assert_eq!(first.old_state.info().name, "A");
    assert_eq!(first.new_state.info().name, "B");

    em.transition_occurred(b2a.clone());
    em.transition_occurred(a2b.clone());
    assert_eq!(em.transition_history().len(), 3);
    assert_eq!(em.last_transition().unwrap().info.id, 0);
    assert_eq!(em.transition_history().get(1).unwrap().info.id, 1);
    assert_eq!(em.transition_history().get(0).unwrap().info.id, 1);

    em.clear_transition_history();
    assert!(em.transition_history().is_empty());
    em.transition_occurred(b2a);
    em.transition_occurred(a2b);
    assert_eq!(em.transition_history().len(), 2);
}

#[test]
fn transition_history_infinite() {
    let mut em: EventMonitor<MonitorNameTape, MonitorFieldTape> = EventMonitor::new(
        Some(0),
        None,
    );
    let a2b = monitor_transition(0, TransitionKind::Transition, "A", "B");
    let b2a = monitor_transition(1, TransitionKind::ChangeState, "B", "A");

    assert!(em.last_transition().is_none());
    assert!(em.transition_history().is_empty());

    em.transition_occurred(a2b.clone());
    em.transition_occurred(b2a.clone());
    assert_eq!(em.transition_history().len(), 2);

    let last = em.last_transition().unwrap();
    assert_eq!(last.info.id, 1);
    assert_eq!(last.old_state.info().name, "B");
    assert_eq!(last.new_state.info().name, "A");
    let first = em.transition_history().get(0).unwrap();
    assert_eq!(first.info.id, 0);
    assert_eq!(first.old_state.info().name, "A");
    assert_eq!(first.new_state.info().name, "B");

    em.transition_occurred(b2a.clone());
    em.transition_occurred(a2b.clone());
    assert_eq!(em.transition_history().len(), 4);
    assert_eq!(em.last_transition().unwrap().info.id, 0);
    assert_eq!(em.transition_history().get(2).unwrap().info.id, 1);
    assert_eq!(em.transition_history().get(1).unwrap().info.id, 1);
    assert_eq!(em.transition_history().get(0).unwrap().info.id, 0);

    em.clear_transition_history();
    assert!(em.transition_history().is_empty());
    em.transition_occurred(b2a);
    em.transition_occurred(a2b);
    assert_eq!(em.transition_history().len(), 2);
}

#[test]
fn transition_history_disabled() {
    let mut em: EventMonitor<MonitorNameTape, MonitorFieldTape> = EventMonitor::new(
        Some(0),
        Some(0),
    );
    let a2b = monitor_transition(0, TransitionKind::Transition, "A", "B");
    let b2a = monitor_transition(1, TransitionKind::ChangeState, "B", "A");

    assert!(em.last_transition().is_none());
    assert!(em.transition_history().is_empty());

    em.transition_occurred(a2b);
    em.transition_occurred(b2a);
    assert!(em.last_transition().is_none());
    assert!(em.transition_history().is_empty());

    em.clear_transition_history();
    assert!(em.last_transition().is_none());
    assert!(em.transition_history().is_empty());
}
