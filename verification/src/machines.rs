//! Concrete generated-style machines that drive the event monitor through
//! the notification-ordering protocol: every dispatch sends exactly one
//! sent and one handled notification bracketing all work it causes, a
//! transition runs exit and enter events around the state swap, and a
//! change-state bypasses both. The contracts of the machine methods state
//! the exact notification sequences, which is where the depth-first order
//! of sent notifications and the stack-unwind order of handled
//! notifications is proved.

use vstd::prelude::*;
use crate::environment::Environment;
use crate::event::Notification;
use crate::info::{MethodInfo, StateInfo, TransitionInfo, TransitionKind};
use crate::live::{EventModel, MethodInstance, StateInstance, StateModel, TransModel};

pub mod event_monitor_sm;
pub mod state_stack;
pub mod transition_sm;

verus! {

/// The model of a state with no construction arguments and no variables.
pub open spec fn plain_state(name: Seq<char>) -> StateModel {
    StateModel { name, args: Seq::empty(), vars: Seq::empty() }
}

/// The model of an event with no return value.
pub open spec fn plain_event(name: Seq<char>) -> EventModel {
    EventModel { name, ret: None }
}

/// A sent notification for an event with no return value.
pub open spec fn sent_note(name: Seq<char>) -> Notification {
    Notification::Sent(plain_event(name))
}

/// A handled notification for an event with no return value.
pub open spec fn handled_note(name: Seq<char>) -> Notification {
    Notification::Handled(plain_event(name))
}

/// A handled notification for an event carrying a return value.
pub open spec fn handled_note_ret(name: Seq<char>, value: crate::environment::ValueModel) ->
    Notification {
    Notification::Handled(EventModel { name, ret: Some(value) })
}

/// A transition notification between two plain states.
pub open spec fn trans_note(id: int, kind: TransitionKind, from: Seq<char>, to: Seq<char>) ->
    Notification {
    Notification::Trans(
        TransModel { id, kind, old: plain_state(from), new: plain_state(to) },
    )
}

/// Whether a transition-table entry carries exactly the given id, kind,
/// triggering event and state pair.
pub open spec fn transition_entry(
    t: TransitionInfo,
    id: int,
    kind: TransitionKind,
    event: Seq<char>,
    source: Seq<char>,
    target: Seq<char>,
) -> bool {
    &&& t.id as int == id
    &&& t.kind == kind
    &&& t.event.name@ == event
    &&& t.source.name@ == source
    &&& t.target.name@ == target
    &&& t.target.is_stack_pop == false
}

/// Whether a transition-table entry is a stack-restoring transition with
/// the given id, kind and triggering event: its target is the sentinel
/// pop-placeholder state, because the real destination is only known at
/// dispatch time from the top of the state stack.
pub open spec fn pop_transition_entry(
    t: TransitionInfo,
    id: int,
    kind: TransitionKind,
    event: Seq<char>,
    source: Seq<char>,
) -> bool {
    &&& t.id as int == id
    &&& t.kind == kind
    &&& t.event.name@ == event
    &&& t.source.name@ == source
    &&& t.target.is_stack_pop == true
}

/// Build a method descriptor for a parameterless event without a return
/// value.
pub(crate) fn plain_method_info(name: &str) -> (r: MethodInfo)
    ensures
        r.name@ == name@,
        r.return_type is None,
{
    MethodInfo { name: name.to_owned(), parameters: Vec::new(), return_type: None }
}

/// Build the descriptor of a state with no parameters and no variables.
pub(crate) fn plain_state_info(name: &str) -> (r: StateInfo)
    ensures
        r.name@ == name@,
        r.is_stack_pop == false,
{
    StateInfo {
        name: name.to_owned(),
        parent: None,
        parameters: Vec::new(),
        variables: Vec::new(),
        handlers: Vec::new(),
        is_stack_pop: false,
    }
}

/// Build a live instance of a state with no arguments and no variables.
pub(crate) fn plain_state_instance(name: &str) -> (r: StateInstance)
    ensures
        r@ == plain_state(name@),
        r.info.is_stack_pop == false,
{
    let r = StateInstance::new(plain_state_info(name), Environment::empty(), Environment::empty());
    r
}

/// Build a live instance of a parameterless event.
pub(crate) fn plain_event_instance(name: &str) -> (r: MethodInstance)
    ensures
        r@ == plain_event(name@),
{
    let info = MethodInfo { name: name.to_owned(), parameters: Vec::new(), return_type: None };
    MethodInstance::new(info, Environment::empty())
}

/// Build the descriptor of a transition between two plain states.
pub(crate) fn plain_transition_info(
    id: u64,
    kind: TransitionKind,
    event_name: &str,
    source: &str,
    target: &str,
) -> (r: TransitionInfo)
    ensures
        r.id == id,
        r.kind == kind,
        r.event.name@ == event_name@,
        r.source.name@ == source@,
        r.target.name@ == target@,
        r.source.is_stack_pop == false,
        r.target.is_stack_pop == false,
{
    TransitionInfo {
        id,
        kind,
        event: MethodInfo { name: event_name.to_owned(), parameters: Vec::new(), return_type: None },
        label: String::new(),
        source: plain_state_info(source),
        target: plain_state_info(target),
    }
}

} // verus!
