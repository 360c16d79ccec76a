//! Tests driving the event-monitoring machine: callback invocation, the
//! depth-first order of sent notifications against the stack-unwind order
//! of handled notifications under cascading transitions, and the bounded
//! histories.

use std::sync::{Arc, Mutex};

use frame_runtime::environment::Value;
use frame_runtime::event::{EventCallback, NullEventCallback, NullTransitionCallback,
    TransitionCallback};
use frame_runtime::live::{MethodInstance, TransitionInstance};
use frame_runtime::machines::event_monitor_sm::{EventMonitorSm, EventMonitorSmState};

struct SmEventRecorder(Arc<Mutex<Vec<MethodInstance>>>);

impl EventCallback for SmEventRecorder {
    fn invoke(&self, event: &MethodInstance) {
        self.0.lock().unwrap().push(event.clone());
    }
}

struct SmNameRecorder(Arc<Mutex<Vec<String>>>);

impl EventCallback for SmNameRecorder {
    fn invoke(&self, event: &MethodInstance) {
        self.0.lock().unwrap().push(event.info().name.clone());
    }
}

struct SmTransRecorder(Arc<Mutex<Vec<String>>>);

impl TransitionCallback for SmTransRecorder {
    fn invoke(&self, transition: &TransitionInstance) {
        self.0.lock().unwrap().push(transition.to_string());
    }
}

/// Pushes each transition's rendering onto two tapes at once, so that the
/// relative order of event and transition notifications is observable on
/// both the sent side and the handled side.
struct SmBothTapes {
    sent: Arc<Mutex<Vec<String>>>,
    handled: Arc<Mutex<Vec<String>>>,
}

impl TransitionCallback for SmBothTapes {
    fn invoke(&self, transition: &TransitionInstance) {
        self.sent.lock().unwrap().push(transition.to_string());
        self.handled.lock().unwrap().push(transition.to_string());
    }
}

#[test]
fn event_sent() {
    let events: Arc<Mutex<Vec<MethodInstance>>> = Arc::new(Mutex::new(Vec::new()));
    let mut sm: EventMonitorSm<SmEventRecorder, NullTransitionCallback> = EventMonitorSm::new();
    sm.event_monitor_mut().add_event_sent_callback(SmEventRecorder(events.clone()));

    sm.mult(3, 5);
    sm.change();
    assert_eq!(2, events.lock().unwrap().len());
    let e1 = events.lock().unwrap()[0].clone();
    let e2 = events.lock().unwrap()[1].clone();
    assert_eq!("mult", e1.info().name);
    assert_eq!("change", e2.info().name);

    sm.reset();
    assert_eq!(3, events.lock().unwrap().len());
    let e3 = events.lock().unwrap()[2].clone();
    assert_eq!("reset", e3.info().name);
}

#[test]
fn event_handled() {
    let events: Arc<Mutex<Vec<MethodInstance>>> = Arc::new(Mutex::new(Vec::new()));
    let mut sm: EventMonitorSm<SmEventRecorder, NullTransitionCallback> = EventMonitorSm::new();
    sm.event_monitor_mut().add_event_handled_callback(SmEventRecorder(events.clone()));

    sm.mult(3, 5);
    sm.change();
    assert_eq!(2, events.lock().unwrap().len());
    let e1 = events.lock().unwrap()[0].clone();
    let e2 = events.lock().unwrap()[1].clone();
    assert_eq!("mult", e1.info().name);
    assert_eq!("change", e2.info().name);

    sm.reset();
    assert_eq!(3, events.lock().unwrap().len());
    let e3 = events.lock().unwrap()[2].clone();
    assert_eq!("reset", e3.info().name);
}

#[test]
fn event_sent_order() {
    let events: Arc<Mutex<Vec<String>>> = Arc::new(Mutex::new(Vec::new()));
    let mut sm: EventMonitorSm<SmNameRecorder, NullTransitionCallback> = EventMonitorSm::new();
    sm.event_monitor_mut().add_event_sent_callback(SmNameRecorder(events.clone()));

    sm.transit(2);
    assert_eq!(EventMonitorSmState::A, sm.state);
    assert_eq!(10, events.lock().unwrap().len());
    let expected = vec![
        "transit", "A:<", "B:>", "transit", "B:<", "C:>", "transit", "C:<", "D:>", "change",
    ];
    assert_eq!(expected, *events.lock().unwrap());

    events.lock().unwrap().clear();
    sm.change();
    sm.mult(4, 6);
    sm.transit(7);
    sm.change();
    sm.reset();

    let expected = vec![
        "change", "mult", // appetizer
        "transit", "B:<", "C:>", "transit", "C:<", "D:>", "change", // main course
        "change", "reset", // dessert
    ];
    assert_eq!(expected, *events.lock().unwrap());
}

#[test]
fn event_handled_order() {
    let events: Arc<Mutex<Vec<String>>> = Arc::new(Mutex::new(Vec::new()));
    let mut sm: EventMonitorSm<SmNameRecorder, NullTransitionCallback> = EventMonitorSm::new();
    sm.event_monitor_mut().add_event_handled_callback(SmNameRecorder(events.clone()));

    sm.transit(2);
    assert_eq!(EventMonitorSmState::A, sm.state);
    assert_eq!(10, events.lock().unwrap().len());
    let expected = vec![
        "A:<", "B:<", "C:<", "change", "D:>", "transit", "C:>", "transit", "B:>", "transit",
    ];
    assert_eq!(expected, *events.lock().unwrap());

    events.lock().unwrap().clear();
    sm.change();
    sm.mult(4, 6);
    sm.transit(7);
    sm.change();
    sm.reset();

    let expected = vec![
        "change", "mult", // appetizer
        "B:<", "C:<", "change", "D:>", "transit", "C:>", "transit", // main course
        "change", "reset", // dessert
    ];
    assert_eq!(expected, *events.lock().unwrap());
}

#[test]
fn transition_order() {
    let transits: Arc<Mutex<Vec<String>>> = Arc::new(Mutex::new(Vec::new()));
    let mut sm: EventMonitorSm<NullEventCallback, SmTransRecorder> = EventMonitorSm::new();
    sm.event_monitor_mut().add_transition_callback(SmTransRecorder(transits.clone()));

    sm.transit(2);
    assert_eq!(4, transits.lock().unwrap().len());
    let expected = vec!["A->B", "B->C", "C->D", "D->>A"];
    assert_eq!(expected, *transits.lock().unwrap());

    transits.lock().unwrap().clear();
    sm.change();
    sm.mult(4, 6);
    sm.transit(7);
    sm.change();
    sm.mult(7, 9);
    sm.change();
    sm.reset();
    let expected = vec!["A->>B", "B->C", "C->D", "D->>A", "A->>B", "B->>C", "C->>A"];
    assert_eq!(expected, *transits.lock().unwrap());
}

#[test]
fn event_transition_order() {
    let sent: Arc<Mutex<Vec<String>>> = Arc::new(Mutex::new(Vec::new()));
    let handled: Arc<Mutex<Vec<String>>> = Arc::new(Mutex::new(Vec::new()));
    let mut sm: EventMonitorSm<SmNameRecorder, SmBothTapes> = EventMonitorSm::new();
    sm.event_monitor_mut().add_event_sent_callback(SmNameRecorder(sent.clone()));
    sm.event_monitor_mut().add_event_handled_callback(SmNameRecorder(handled.clone()));
    sm.event_monitor_mut().add_transition_callback(SmBothTapes {
        sent: sent.clone(),
        handled: handled.clone(),
    });

    sm.transit(2);
    assert_eq!(14, sent.lock().unwrap().len());
    assert_eq!(14, handled.lock().unwrap().len());

    let sent_expected = vec![
        "transit", "A:<", "A->B", "B:>", // A->B
        "transit", "B:<", "B->C", "C:>", // B->C
        "transit", "C:<", "C->D", "D:>", // C->D
        "change", "D->>A", // D->>A
    ];
    let handled_expected = vec![
        "A:<", "A->B", "B:<", "B->C", "C:<", "C->D", "D->>A", // going down
        "change", "D:>", "transit", "C:>", "transit", "B:>", "transit", // coming back
    ];
    assert_eq!(sent_expected, *sent.lock().unwrap());
    assert_eq!(handled_expected, *handled.lock().unwrap());

    sent.lock().unwrap().clear();
    handled.lock().unwrap().clear();
    sm.change();
    sm.mult(4, 6);
    sm.transit(7);
    sm.change();
    sm.mult(7, 9);
    sm.change();
    sm.reset();
    let sent_expected = vec![
        "change", "A->>B", "mult", // change, mult
        "transit", "B:<", "B->C", "C:>", // transit
        "transit", "C:<", "C->D", "D:>", // ...
        "change", "D->>A", // ...
        "change", "A->>B", "mult", // change, mult
        "change", "B->>C", // change
        "reset", "C->>A", // reset
    ];
    let handled_expected = vec![
        "A->>B", "change", "mult", // change, mult
        "B:<", "B->C", "C:<", "C->D", "D->>A", // transit
        "change", "D:>", "transit", "C:>", "transit", // ...
        "A->>B", "change", "mult", // change, mult
        "B->>C", "change", // change
        "C->>A", "reset", // reset
    ];
    assert_eq!(sent_expected, *sent.lock().unwrap());
    assert_eq!(handled_expected, *handled.lock().unwrap());
}

#[test]
fn event_history_initial_enter() {
    let sm: EventMonitorSm<NullEventCallback, NullTransitionCallback> = EventMonitorSm::new();
    let history = sm.event_monitor().event_history();
    assert_eq!(1, history.len());
    assert_eq!("A:>", history.back().unwrap().info().name);
}

#[test]
fn event_history_capacity() {
    let mut sm: EventMonitorSm<NullEventCallback, NullTransitionCallback> = EventMonitorSm::new();
    assert_eq!(Some(5), sm.event_monitor().get_event_history_capacity());
    sm.event_monitor_mut().clear_event_history();

    sm.change();
    sm.mult(3, 5);
    let history = sm.event_monitor().event_history();
    assert_eq!(2, history.len());
    assert_eq!("change", history[0].info().name);
    assert_eq!("mult", history[1].info().name);

    sm.transit(5);
    let history = sm.event_monitor().event_history();
    assert_eq!(5, history.len());
    let actual: Vec<&str> = history.iter().map(|e| e.info().name.as_str()).collect();
    let expected = vec!["change", "D:>", "transit", "C:>", "transit"];
    assert_eq!(expected, actual);

    sm.event_monitor_mut().set_event_history_capacity(Some(7));
    sm.mult(4, 6);
    sm.mult(5, 7);
    sm.change();
    let history = sm.event_monitor().event_history();
    assert_eq!(7, history.len());
    let actual: Vec<&str> = history.iter().map(|e| e.info().name.as_str()).collect();
    let expected = vec!["D:>", "transit", "C:>", "transit", "mult", "mult", "change"];
    assert_eq!(expected, actual);

    sm.event_monitor_mut().set_event_history_capacity(Some(3));
    let history = sm.event_monitor().event_history();
    assert_eq!(3, history.len());
    let actual: Vec<&str> = history.iter().map(|e| e.info().name.as_str()).collect();
    let expected = vec!["mult", "mult", "change"];
    assert_eq!(expected, actual);

    sm.change();
    let history = sm.event_monitor().event_history();
    assert_eq!(3, history.len());
    let actual: Vec<&str> = history.iter().map(|e| e.info().name.as_str()).collect();
    let expected = vec!["mult", "change", "change"];
    assert_eq!(expected, actual);

    sm.event_monitor_mut().set_event_history_capacity(None);
    sm.reset();
    sm.transit(3);
    let history = sm.event_monitor().event_history();
    assert_eq!(14, history.len());
}

#[test]
fn transition_history_capacity() {
    let mut sm: EventMonitorSm<NullEventCallback, NullTransitionCallback> = EventMonitorSm::new();
    assert_eq!(Some(3), sm.event_monitor().get_transition_history_capacity());
    assert!(sm.event_monitor().transition_history().is_empty());

    sm.change();
    sm.mult(3, 5);
    sm.reset();
    let history = sm.event_monitor().transition_history();
    assert_eq!(2, history.len());
    assert_eq!("A->>B", history[0].to_string());
    assert_eq!("B->>A", history[1].to_string());

    sm.transit(5);
    let history = sm.event_monitor().transition_history();
    assert_eq!(3, history.len());
    let actual: Vec<String> = history.iter().map(|t| t.to_string()).collect();
    let expected = vec!["B->C", "C->D", "D->>A"];
    assert_eq!(expected, actual);

    sm.event_monitor_mut().set_transition_history_capacity(Some(6));
    sm.mult(5, 7);
    sm.transit(3);
    let history = sm.event_monitor().transition_history();
    assert_eq!(6, history.len());
    let actual: Vec<String> = history.iter().map(|t| t.to_string()).collect();
    let expected = vec!["C->D", "D->>A", "A->B", "B->C", "C->D", "D->>A"];
    assert_eq!(expected, actual);

    sm.event_monitor_mut().set_transition_history_capacity(Some(3));
    let history = sm.event_monitor().transition_history();
    assert_eq!(3, history.len());
    let actual: Vec<String> = history.iter().map(|t| t.to_string()).collect();
    let expected = vec!["B->C", "C->D", "D->>A"];
    assert_eq!(expected, actual);

    sm.change();
    let history = sm.event_monitor().transition_history();
    assert_eq!(3, history.len());
    let actual: Vec<String> = history.iter().map(|t| t.to_string()).collect();
    let expected = vec!["C->D", "D->>A", "A->>B"];
    assert_eq!(expected, actual);

    sm.event_monitor_mut().set_transition_history_capacity(None);
    sm.reset();
    sm.transit(4);
    sm.transit(5);
    let history = sm.event_monitor().transition_history();
    assert_eq!(12, history.len());
}

#[test]
fn event_history_return_value() {
    let mut sm: EventMonitorSm<NullEventCallback, NullTransitionCallback> = EventMonitorSm::new();
    sm.event_monitor_mut().clear_event_history();

    sm.change();
    sm.mult(3, 5);
    sm.change();
    sm.reset();
    let history = sm.event_monitor().event_history();
    assert!(history[0].return_value().is_some());
    assert!(history[1].return_value().is_some());
    assert!(history[2].return_value().is_some());
    assert!(history[3].return_value().is_none());
    match history[0].return_value() {
        Some(Value::U32(v)) => assert_eq!(2, *v),
        _ => panic!("expected a u32 return value"),
    }
    match history[1].return_value() {
        Some(Value::I32(v)) => assert_eq!(15, *v),
        _ => panic!("expected an i32 return value"),
    }
    match history[2].return_value() {
        Some(Value::U32(v)) => assert_eq!(12, *v),
        _ => panic!("expected a u32 return value"),
    }
}
