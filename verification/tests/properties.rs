//! Scenario tests for the documented properties of the histories, the
//! capacity rules, the state stack, and the value-lookup types.

use std::sync::atomic::{AtomicUsize, Ordering};
use std::sync::Arc;

use frame_runtime::environment::{Environment, Value};
use frame_runtime::event::{EventCallback, EventMonitor, NullEventCallback,
    NullTransitionCallback, TransitionCallback};
use frame_runtime::info::{MachineInfo, MethodInfo, NameInfo, StateInfo, TransitionInfo,
    TransitionKind};
use frame_runtime::live::{MethodInstance, StateInstance, TransitionInstance};
use frame_runtime::machines::state_stack::{StateStack, StateStackState};

struct CountingCallback(Arc<AtomicUsize>);

impl EventCallback for CountingCallback {
    fn invoke(&self, _event: &MethodInstance) {
        self.0.fetch_add(1, Ordering::SeqCst);
    }
}

struct CountingTransCallback(Arc<AtomicUsize>);

impl TransitionCallback for CountingTransCallback {
    fn invoke(&self, _transition: &TransitionInstance) {
        self.0.fetch_add(1, Ordering::SeqCst);
    }
}

fn named_event(name: &str) -> MethodInstance {
    MethodInstance::new(
        MethodInfo { name: name.to_string(), parameters: Vec::new(), return_type: None },
        Environment::empty(),
    )
}

fn named_state(name: &str) -> StateInstance {
    StateInstance::new(
        StateInfo {
            name: name.to_string(),
            parent: None,
            parameters: Vec::new(),
            variables: Vec::new(),
            handlers: Vec::new(),
            is_stack_pop: false,
        },
        Environment::empty(),
        Environment::empty(),
    )
}

fn numbered_transition(id: u64, kind: TransitionKind, from: &str, to: &str) -> TransitionInstance {
    let info = TransitionInfo {
        id,
        kind,
        event: MethodInfo { name: "go".to_string(), parameters: Vec::new(), return_type: None },
        label: String::new(),
        source: named_state(from).info,
        target: named_state(to).info,
    };
    TransitionInstance::change_state(info, named_state(from), named_state(to))
}

type PlainMonitor = EventMonitor<NullEventCallback, NullTransitionCallback>;

fn event_names(em: &PlainMonitor) -> Vec<String> {
    em.event_history().iter().map(|e| e.info().name.clone()).collect()
}

/// A history of capacity five holds exactly the newest five of seven
/// handled events, in order, and never exceeds five at any point.
#[test]
fn bounded_history_keeps_newest_five() {
    let mut em: PlainMonitor = EventMonitor::new(Some(5), None);
    let names = ["e1", "e2", "e3", "e4", "e5", "e6", "e7"];
    for name in names.iter() {
        em.event_handled(named_event(name));
        assert!(em.event_history().len() <= 5);
    }
    assert_eq!(event_names(&em), vec!["e3", "e4", "e5", "e6", "e7"]);
}

/// With capacity zero the history stays empty no matter how many events
/// are handled, yet every registered callback still fires exactly once
/// per event.
#[test]
fn zero_capacity_records_nothing_but_notifies() {
    let sent_count = Arc::new(AtomicUsize::new(0));
    let handled_count = Arc::new(AtomicUsize::new(0));
    let mut em: EventMonitor<CountingCallback, NullTransitionCallback> = EventMonitor::new(
        Some(0),
        Some(0),
    );
    em.add_event_sent_callback(CountingCallback(sent_count.clone()));
    em.add_event_handled_callback(CountingCallback(handled_count.clone()));
    for i in 0..10 {
        let name = format!("e{}", i);
        em.event_sent(&named_event(&name));
        em.event_handled(named_event(&name));
        assert!(em.event_history().is_empty());
    }
    assert_eq!(sent_count.load(Ordering::SeqCst), 10);
    assert_eq!(handled_count.load(Ordering::SeqCst), 10);
}

/// With no capacity the history grows without bound: its length equals
/// the total count of handled events.
#[test]
fn unbounded_history_counts_all_events() {
    let mut em: PlainMonitor = EventMonitor::new(None, None);
    for i in 0..100 {
        em.event_handled(named_event(&format!("e{}", i)));
        assert_eq!(em.event_history().len(), i + 1);
    }
}

/// The last transition is absent before any transition and immediately
/// after clearing; otherwise it is the most recently recorded one, also
/// while eviction is dropping older entries.
#[test]
fn last_transition_follows_history() {
    let mut em: PlainMonitor = EventMonitor::new(Some(0), Some(2));
    assert!(em.last_transition().is_none());

    em.transition_occurred(numbered_transition(0, TransitionKind::Transition, "A", "B"));
    assert_eq!(em.last_transition().unwrap().info.id, 0);

    em.transition_occurred(numbered_transition(1, TransitionKind::Transition, "B", "C"));
    em.transition_occurred(numbered_transition(2, TransitionKind::ChangeState, "C", "A"));
    assert_eq!(em.transition_history().len(), 2);
    assert_eq!(em.last_transition().unwrap().info.id, 2);

    em.clear_transition_history();
    assert!(em.last_transition().is_none());
}

/// Lowering the capacity immediately evicts the oldest entries down to
/// the new bound; raising it, or removing it, never evicts and keeps the
/// order.
#[test]
fn capacity_changes_evict_only_downward() {
    let mut em: PlainMonitor = EventMonitor::new(Some(6), None);
    for name in ["e1", "e2", "e3", "e4", "e5", "e6"].iter() {
        em.event_handled(named_event(name));
    }
    em.set_event_history_capacity(Some(4));
    assert_eq!(event_names(&em), vec!["e3", "e4", "e5", "e6"]);

    em.set_event_history_capacity(Some(10));
    assert_eq!(event_names(&em), vec!["e3", "e4", "e5", "e6"]);
    assert_eq!(em.get_event_history_capacity(), Some(10));

    em.set_event_history_capacity(None);
    assert_eq!(event_names(&em), vec!["e3", "e4", "e5", "e6"]);
    assert_eq!(em.get_event_history_capacity(), None);
}

/// A push followed by a later pop restores the saved state, firing an
/// exit notification for the state being left and an enter notification
/// for the restored state; a pop-change-state performs the identical
/// restoration without firing either.
#[test]
fn push_pop_restores_with_events() {
    let mut sm: StateStack<NullEventCallback, NullTransitionCallback> = StateStack::new();
    sm.to_b();
    sm.push();
    sm.to_c();
    sm.tape.clear();
    sm.pop();
    assert_eq!(sm.state, StateStackState::B);
    assert_eq!(sm.tape, vec!["C:<", "B:>"]);

    sm.push();
    sm.to_a();
    sm.tape.clear();
    sm.pop_change();
    assert_eq!(sm.state, StateStackState::B);
    assert!(sm.tape.is_empty());
}

/// Pushing three distinct states and popping three times restores them
/// in exact reverse order.
#[test]
fn three_pushes_pop_in_reverse() {
    let mut sm: StateStack<NullEventCallback, NullTransitionCallback> = StateStack::new();
    sm.push(); // A
    sm.to_b();
    sm.push(); // B
    sm.to_c();
    sm.push(); // C
    sm.to_a();
    sm.pop();
    assert_eq!(sm.state, StateStackState::C);
    sm.pop();
    assert_eq!(sm.state, StateStackState::B);
    sm.pop();
    assert_eq!(sm.state, StateStackState::A);
}

/// Popping an empty stack is a no-op: the state, the stack and the tape
/// are untouched, for both pop operations.
#[test]
fn empty_pop_is_noop() {
    let mut sm: StateStack<NullEventCallback, NullTransitionCallback> = StateStack::new();
    sm.to_b();
    sm.tape.clear();
    sm.pop();
    assert_eq!(sm.state, StateStackState::B);
    assert!(sm.tape.is_empty());
    sm.pop_change();
    assert_eq!(sm.state, StateStackState::B);
    assert!(sm.tape.is_empty());
}

/// Lookup by name answers the first matching binding; an absent name is
/// "not found", never an error.
#[test]
fn environment_lookup() {
    let entries = vec![
        ("x".to_string(), Value::I32(3)),
        ("flag".to_string(), Value::Flag(true)),
        ("x".to_string(), Value::I32(9)),
        ("label".to_string(), Value::Text("hello".to_string())),
    ];
    let env = Environment::from_entries(entries);
    assert_eq!(env.len(), 4);
    match env.lookup("x") {
        Some(Value::I32(v)) => assert_eq!(*v, 3),
        _ => panic!("expected the first binding of x"),
    }
    match env.lookup("flag") {
        Some(Value::Flag(b)) => assert!(*b),
        _ => panic!("expected a flag"),
    }
    match env.lookup("label") {
        Some(Value::Text(s)) => assert_eq!(s, "hello"),
        _ => panic!("expected text"),
    }
    assert!(env.lookup("absent").is_none());
    assert!(Environment::empty().lookup("anything").is_none());
}

/// Each extraction method answers the stored value when the kind
/// matches.
#[test]
fn value_extraction() {
    assert_eq!(Value::I32(-7).as_i32(), -7);
    assert_eq!(Value::U32(12).as_u32(), 12);
    assert!(Value::Flag(true).as_flag());
    assert_eq!(Value::Text("abc".to_string()).as_text(), "abc");
    let copy = Value::Text("abc".to_string()).clone();
    assert_eq!(copy.as_text(), "abc");
}

/// Events carry their bound arguments and, once handled, their return
/// value.
#[test]
fn method_instance_arguments_and_return() {
    let arguments = Environment::from_entries(vec![
        ("a".to_string(), Value::I32(4)),
        ("b".to_string(), Value::I32(6)),
    ]);
    let info = MethodInfo {
        name: "mult".to_string(),
        parameters: vec![
            NameInfo { name: "a".to_string(), value_type: "i32".to_string() },
            NameInfo { name: "b".to_string(), value_type: "i32".to_string() },
        ],
        return_type: Some("i32".to_string()),
    };
    let event = MethodInstance::new(info, arguments);
    assert_eq!(event.info().name, "mult");
    assert!(event.return_value().is_none());
    match event.arguments().lookup("b") {
        Some(Value::I32(v)) => assert_eq!(*v, 6),
        _ => panic!("expected the second argument"),
    }
    let done = event.with_return(Value::I32(24));
    match done.return_value() {
        Some(Value::I32(v)) => assert_eq!(*v, 24),
        _ => panic!("expected the return value"),
    }
}

/// A transition renders as the two state names joined by an arrow,
/// double-headed for a change-state.
#[test]
fn transition_rendering() {
    let t = numbered_transition(5, TransitionKind::Transition, "Idle", "Busy");
    assert_eq!(t.to_string(), "Idle->Busy");
    let c = numbered_transition(6, TransitionKind::ChangeState, "Busy", "Idle");
    assert_eq!(c.to_string(), "Busy->>Idle");
    assert_eq!(c.clone().to_string(), "Busy->>Idle");
}

/// The machine descriptor finds states and events by name and
/// transitions by id; absent names and ids answer "not found".
#[test]
fn machine_info_lookups() {
    let info = MachineInfo {
        name: "Demo".to_string(),
        states: vec![named_state("Idle").info, named_state("Busy").info],
        events: vec![
            MethodInfo { name: "go".to_string(), parameters: Vec::new(), return_type: None },
            MethodInfo { name: "stop".to_string(), parameters: Vec::new(), return_type: None },
        ],
        transitions: vec![
            TransitionInfo {
                id: 4,
                kind: TransitionKind::Transition,
                event: MethodInfo {
                    name: "go".to_string(),
                    parameters: Vec::new(),
                    return_type: None,
                },
                label: String::new(),
                source: named_state("Idle").info,
                target: named_state("Busy").info,
            },
        ],
        interface: Vec::new(),
    };
    assert_eq!(info.get_state("Busy").unwrap().name, "Busy");
    assert!(info.get_state("Gone").is_none());
    assert_eq!(info.get_event("stop").unwrap().name, "stop");
    assert!(info.get_event("missing").is_none());
    assert_eq!(info.get_transition(4).unwrap().source.name, "Idle");
    assert!(info.get_transition(9).is_none());
}

/// The static table of the transition machine carries the stable ids its
/// dispatch logic fires, with ids not necessarily contiguous in any
/// single trace.
#[test]
fn transition_machine_static_table() {
    let info = frame_runtime::machines::transition_sm::machine_info();
    assert_eq!(info.name, "Transition");
    assert_eq!(info.states.len(), 5);
    let t0 = info.get_transition(0).unwrap();
    assert_eq!(t0.kind, TransitionKind::Transition);
    assert_eq!(t0.source.name, "S0");
    assert_eq!(t0.target.name, "S1");
    let t9 = info.get_transition(9).unwrap();
    assert_eq!(t9.kind, TransitionKind::ChangeState);
    assert_eq!(t9.source.name, "S4");
    assert_eq!(t9.target.name, "S0");
    assert!(info.get_transition(5).is_none());
    assert_eq!(info.get_event("S2:>").unwrap().name, "S2:>");
}

/// Stack-restoring transitions in the static table point at the sentinel
/// pop-placeholder state, since their real destination is only known at
/// dispatch time from the stack top.
#[test]
fn stack_pop_placeholder_target() {
    let info = frame_runtime::machines::state_stack::machine_info();
    assert_eq!(info.name, "StateStack");
    let pop_a = info.get_transition(9).unwrap();
    assert_eq!(pop_a.kind, TransitionKind::Transition);
    assert!(pop_a.target.is_stack_pop);
    assert_eq!(pop_a.event.name, "pop");
    let popc_c = info.get_transition(14).unwrap();
    assert_eq!(popc_c.kind, TransitionKind::ChangeState);
    assert!(popc_c.target.is_stack_pop);
    let to_b_from_a = info.get_transition(1).unwrap();
    assert!(!to_b_from_a.target.is_stack_pop);
    assert_eq!(to_b_from_a.source.name, "A");
    assert_eq!(to_b_from_a.target.name, "B");
}

/// Transition callbacks run exactly once per recorded transition even
/// when the history is disabled.
#[test]
fn transition_callbacks_fire_with_disabled_history() {
    let count = Arc::new(AtomicUsize::new(0));
    let mut em: EventMonitor<NullEventCallback, CountingTransCallback> = EventMonitor::new(
        Some(0),
        Some(0),
    );
    em.add_transition_callback(CountingTransCallback(count.clone()));
    em.transition_occurred(numbered_transition(0, TransitionKind::Transition, "A", "B"));
    em.transition_occurred(numbered_transition(1, TransitionKind::ChangeState, "B", "A"));
    assert_eq!(count.load(Ordering::SeqCst), 2);
    assert!(em.transition_history().is_empty());
}
