//! Tests of the state stack: pushes and pops behave as a strict LIFO
//! over the full sequence of prior states, a pop restores the saved
//! state through the full transition protocol, and a pop-change-state
//! restores it without enter or exit events.

use frame_runtime::event::{NullEventCallback, NullTransitionCallback};
use frame_runtime::machines::state_stack::{StateStack, StateStackState};

type StackSm = StateStack<NullEventCallback, NullTransitionCallback>;

/// Test that a pop restores a pushed state.
#[test]
fn push_pop() {
    let mut sm: StackSm = StateStack::new();
    assert_eq!(sm.state, StateStackState::A);
    sm.push();
    sm.to_b();
    assert_eq!(sm.state, StateStackState::B);
    sm.pop();
    assert_eq!(sm.state, StateStackState::A);
}

/// Test that multiple states can be pushed and subsequently restored by
/// pops, LIFO style.
#[test]
fn multiple_push_pops() {
    let mut sm: StackSm = StateStack::new();
    assert_eq!(sm.state, StateStackState::A);
    sm.push();
    sm.to_c();
    sm.push();
    sm.to_a();
    sm.push();
    sm.push();
    sm.to_c(); // no push
    sm.to_b();
    sm.push();
    sm.to_c();
    sm.push(); // stack top-to-bottom: C, B, A, A, C, A
    sm.to_a();
    assert_eq!(sm.state, StateStackState::A);
    sm.pop();
    assert_eq!(sm.state, StateStackState::C);
    sm.to_a();
    assert_eq!(sm.state, StateStackState::A);
    sm.pop();
    assert_eq!(sm.state, StateStackState::B);
    sm.pop();
    assert_eq!(sm.state, StateStackState::A);
    sm.pop();
    assert_eq!(sm.state, StateStackState::A);
    sm.pop();
    assert_eq!(sm.state, StateStackState::C);
    sm.to_b();
    sm.push();
    sm.to_c();
    sm.push(); // stack top-to-bottom: C, B, A
    sm.to_a();
    sm.to_b();
    assert_eq!(sm.state, StateStackState::B);
    sm.pop();
    assert_eq!(sm.state, StateStackState::C);
    sm.pop();
    assert_eq!(sm.state, StateStackState::B);
    sm.pop();
    assert_eq!(sm.state, StateStackState::A);
}

/// Test that pop transitions trigger enter/exit events.
#[test]
fn pop_transition_events() {
    let mut sm: StackSm = StateStack::new();
    sm.to_b();
    sm.push();
    sm.to_a();
    sm.push();
    sm.to_c();
    sm.push(); // stack top-to-bottom: C, A, B
    sm.to_a();
    sm.tape.clear();
    assert_eq!(sm.state, StateStackState::A);
    sm.pop();
    assert_eq!(sm.state, StateStackState::C);
    assert_eq!(sm.tape, vec!["A:<", "C:>"]);
    sm.tape.clear();
    sm.pop();
    sm.pop();
    assert_eq!(sm.state, StateStackState::B);
    assert_eq!(sm.tape, vec!["C:<", "A:>", "A:<", "B:>"]);
}

/// Test that pop change-states do not trigger enter/exit events.
#[test]
fn pop_change_state_no_events() {
    let mut sm: StackSm = StateStack::new();
    sm.to_b();
    sm.push();
    sm.to_a();
    sm.push();
    sm.to_c();
    sm.push(); // stack top-to-bottom: C, A, B
    sm.to_a();
    sm.tape.clear();
    assert_eq!(sm.state, StateStackState::A);
    sm.pop_change();
    assert_eq!(sm.state, StateStackState::C);
    assert!(sm.tape.is_empty());
    sm.pop();
    sm.pop_change();
    assert_eq!(sm.state, StateStackState::B);
    assert_eq!(sm.tape, vec!["C:<", "A:>"]);
}
