//! A four-state machine whose event stream exercises the monitor: a
//! `transit` dispatch chains a transition through every state, because
//! each entered state's enter handler immediately dispatches the next
//! event, ending in a change-state back to the first state; `change`
//! performs a single change-state and returns a running counter; `mult`
//! computes a product without transitioning; `reset` change-states back
//! to the first state. Event and transition histories are bounded at
//! construction.

use vstd::prelude::*;
use crate::environment::{Environment, Value, ValueModel};
use crate::event::{EventCallback, EventMonitor, Notification, TransitionCallback, evict_push, handled_names,
    lemma_handled_names_over_add, lemma_replay_events_over_add, lemma_replay_events_single,
    lemma_replay_transitions_over_add, lemma_replay_transitions_single,
    lemma_sent_names_over_add, replay_events, replay_transitions, sent_names};
use crate::info::{MachineInfo, MethodInfo, StateInfo, TransitionInfo, TransitionKind};
use crate::live::{EventModel, MethodInstance, StateInstance, TransModel, TransitionInstance};
use crate::machines::{
    plain_event, plain_event_instance, plain_method_info, plain_state, plain_state_info,
    plain_state_instance, plain_transition_info, handled_note, handled_note_ret, sent_note,
    trans_note, transition_entry,
};

verus! {

/// The states of the machine.
#[derive(Clone, Copy, Debug, PartialEq, Eq, Structural)]
pub enum EventMonitorSmState {
    A,
    B,
    C,
    D,
}

/// The printable name of a state, in the model.
pub open spec fn s_name(s: EventMonitorSmState) -> Seq<char> {
    match s {
        EventMonitorSmState::A => "A"@,
        EventMonitorSmState::B => "B"@,
        EventMonitorSmState::C => "C"@,
        EventMonitorSmState::D => "D"@,
    }
}

/// The name of the enter event delivered to a state.
pub open spec fn enter_name(s: EventMonitorSmState) -> Seq<char> {
    match s {
        EventMonitorSmState::A => "A:>"@,
        EventMonitorSmState::B => "B:>"@,
        EventMonitorSmState::C => "C:>"@,
        EventMonitorSmState::D => "D:>"@,
    }
}

/// The name of the exit event delivered to a state.
pub open spec fn exit_name(s: EventMonitorSmState) -> Seq<char> {
    match s {
        EventMonitorSmState::A => "A:<"@,
        EventMonitorSmState::B => "B:<"@,
        EventMonitorSmState::C => "C:<"@,
        EventMonitorSmState::D => "D:<"@,
    }
}

/// The state a `change` dispatch moves into.
pub open spec fn change_target(s: EventMonitorSmState) -> EventMonitorSmState {
    match s {
        EventMonitorSmState::A => EventMonitorSmState::B,
        EventMonitorSmState::B => EventMonitorSmState::C,
        EventMonitorSmState::C => EventMonitorSmState::D,
        EventMonitorSmState::D => EventMonitorSmState::A,
    }
}

/// The stable id of the change-state out of a state.
pub open spec fn change_id(s: EventMonitorSmState) -> int {
    match s {
        EventMonitorSmState::A => 1,
        EventMonitorSmState::B => 3,
        EventMonitorSmState::C => 5,
        EventMonitorSmState::D => 6,
    }
}

/// The stable id of the reset change-state out of a state. The first
/// state has no reset transition, so its arm is never applied.
pub open spec fn reset_id(s: EventMonitorSmState) -> int {
    match s {
        EventMonitorSmState::A => 7,
        EventMonitorSmState::B => 7,
        EventMonitorSmState::C => 8,
        EventMonitorSmState::D => 9,
    }
}

/// The notifications of one `change` dispatch in a state whose counter
/// holds `v`: the sent notification, the change-state, and the handled
/// notification carrying the new counter value.
pub open spec fn notes_change(s: EventMonitorSmState, v: int) -> Seq<Notification> {
    seq![
        sent_note("change"@),
        trans_note(change_id(s), TransitionKind::ChangeState, s_name(s), s_name(change_target(s))),
        handled_note_ret("change"@, ValueModel::U32(v + 2)),
    ]
}

/// The notifications of the chained transition into the last state: its
/// enter handler dispatches `change`, which change-states back to the
/// first state before the enter event completes.
pub open spec fn notes_trans_c_d(v: int) -> Seq<Notification> {
    seq![
        sent_note(exit_name(EventMonitorSmState::C)),
        handled_note(exit_name(EventMonitorSmState::C)),
        trans_note(
            4,
            TransitionKind::Transition,
            s_name(EventMonitorSmState::C),
            s_name(EventMonitorSmState::D),
        ),
        sent_note(enter_name(EventMonitorSmState::D)),
    ] + notes_change(EventMonitorSmState::D, v) + seq![
        handled_note(enter_name(EventMonitorSmState::D)),
    ]
}

/// The notifications of the chained transition into the third state: its
/// enter handler dispatches `transit` again.
pub open spec fn notes_trans_b_c(v: int) -> Seq<Notification> {
    seq![
        sent_note(exit_name(EventMonitorSmState::B)),
        handled_note(exit_name(EventMonitorSmState::B)),
        trans_note(
            2,
            TransitionKind::Transition,
            s_name(EventMonitorSmState::B),
            s_name(EventMonitorSmState::C),
        ),
        sent_note(enter_name(EventMonitorSmState::C)),
        sent_note("transit"@),
    ] + notes_trans_c_d(v) + seq![
        handled_note("transit"@),
        handled_note(enter_name(EventMonitorSmState::C)),
    ]
}

/// The notifications of the chained transition out of the first state.
pub open spec fn notes_trans_a_b(v: int) -> Seq<Notification> {
    seq![
        sent_note(exit_name(EventMonitorSmState::A)),
        handled_note(exit_name(EventMonitorSmState::A)),
        trans_note(
            0,
            TransitionKind::Transition,
            s_name(EventMonitorSmState::A),
            s_name(EventMonitorSmState::B),
        ),
        sent_note(enter_name(EventMonitorSmState::B)),
        sent_note("transit"@),
    ] + notes_trans_b_c(v) + seq![
        handled_note("transit"@),
        handled_note(enter_name(EventMonitorSmState::B)),
    ]
}

/// The full notification sequence of one `transit` dispatch in a state
/// whose counter holds `v`: sent notifications appear in causal,
/// depth-first order as the chain descends, handled notifications in
/// stack-unwind order as it completes.
pub open spec fn notes_transit(s: EventMonitorSmState, v: int) -> Seq<Notification> {
    seq![sent_note("transit"@)] + match s {
        EventMonitorSmState::A => notes_trans_a_b(v),
        EventMonitorSmState::B => notes_trans_b_c(v),
        EventMonitorSmState::C => notes_trans_c_d(v),
        EventMonitorSmState::D => Seq::empty(),
    } + seq![handled_note("transit"@)]
}

/// The state reached by a `transit` dispatch, after the whole chain.
pub open spec fn transit_target(s: EventMonitorSmState) -> EventMonitorSmState {
    match s {
        EventMonitorSmState::A => EventMonitorSmState::A,
        EventMonitorSmState::B => EventMonitorSmState::A,
        EventMonitorSmState::C => EventMonitorSmState::A,
        EventMonitorSmState::D => EventMonitorSmState::D,
    }
}

/// The notifications of one `mult` dispatch: no transition, and the
/// handled notification carries the product.
pub open spec fn notes_mult(a: int, b: int) -> Seq<Notification> {
    seq![sent_note("mult"@), handled_note_ret("mult"@, ValueModel::I32(a * b))]
}

/// The notifications of one `reset` dispatch: a change-state back to the
/// first state, unless the machine is already there.
pub open spec fn notes_reset(s: EventMonitorSmState) -> Seq<Notification> {
    if s is A {
        seq![sent_note("reset"@), handled_note("reset"@)]
    } else {
        seq![
            sent_note("reset"@),
            trans_note(
                reset_id(s),
                TransitionKind::ChangeState,
                s_name(s),
                s_name(EventMonitorSmState::A),
            ),
            handled_note("reset"@),
        ]
    }
}

/// The static shape of this machine type: its states, its events
/// including the enter and exit events of every state, its transition
/// table with the stable ids the dispatch logic fires, and its public
/// interface.
pub fn machine_info() -> (r: MachineInfo)
    ensures
        r.name@ == "EventMonitorSm"@,
        r.states@.len() == 4,
        r.states@[0].name@ == "A"@,
        r.states@[1].name@ == "B"@,
        r.states@[2].name@ == "C"@,
        r.states@[3].name@ == "D"@,
        r.events@.len() == 12,
        r.events@[0].name@ == "transit"@,
        r.events@[1].name@ == "change"@,
        (r.events@[1].return_type matches Some(t) && t@ == "u32"@),
        r.events@[2].name@ == "mult"@,
        (r.events@[2].return_type matches Some(t) && t@ == "i32"@),
        r.events@[3].name@ == "reset"@,
        r.events@[4].name@ == "A:>"@,
        r.events@[5].name@ == "B:>"@,
        r.events@[6].name@ == "C:>"@,
        r.events@[7].name@ == "D:>"@,
        r.events@[8].name@ == "A:<"@,
        r.events@[9].name@ == "B:<"@,
        r.events@[10].name@ == "C:<"@,
        r.events@[11].name@ == "D:<"@,
        r.transitions@.len() == 10,
        transition_entry(r.transitions@[0], 0, TransitionKind::Transition, "transit"@, "A"@, "B"@),
        transition_entry(r.transitions@[1], 1, TransitionKind::ChangeState, "change"@, "A"@, "B"@),
        transition_entry(r.transitions@[2], 2, TransitionKind::Transition, "transit"@, "B"@, "C"@),
        transition_entry(r.transitions@[3], 3, TransitionKind::ChangeState, "change"@, "B"@, "C"@),
        transition_entry(r.transitions@[4], 4, TransitionKind::Transition, "transit"@, "C"@, "D"@),
        transition_entry(r.transitions@[5], 5, TransitionKind::ChangeState, "change"@, "C"@, "D"@),
        transition_entry(r.transitions@[6], 6, TransitionKind::ChangeState, "change"@, "D"@, "A"@),
        transition_entry(r.transitions@[7], 7, TransitionKind::ChangeState, "reset"@, "B"@, "A"@),
        transition_entry(r.transitions@[8], 8, TransitionKind::ChangeState, "reset"@, "C"@, "A"@),
        transition_entry(r.transitions@[9], 9, TransitionKind::ChangeState, "reset"@, "D"@, "A"@),
        r.interface@.len() == 4,
        r.interface@[0].name@ == "transit"@,
        r.interface@[1].name@ == "change"@,
        r.interface@[2].name@ == "mult"@,
        r.interface@[3].name@ == "reset"@,
{
    let mut states: Vec<StateInfo> = Vec::new();
    states.push(plain_state_info("A"));
    states.push(plain_state_info("B"));
    states.push(plain_state_info("C"));
    states.push(plain_state_info("D"));
    let mut events: Vec<MethodInfo> = Vec::new();
    events.push(plain_method_info("transit"));
    events.push(MethodInfo {
        name: "change".to_owned(),
        parameters: Vec::new(),
        return_type: Some("u32".to_owned()),
    });
    events.push(MethodInfo {
        name: "mult".to_owned(),
        parameters: Vec::new(),
        return_type: Some("i32".to_owned()),
    });
    events.push(plain_method_info("reset"));
    events.push(plain_method_info("A:>"));
    events.push(plain_method_info("B:>"));
    events.push(plain_method_info("C:>"));
    events.push(plain_method_info("D:>"));
    events.push(plain_method_info("A:<"));
    events.push(plain_method_info("B:<"));
    events.push(plain_method_info("C:<"));
    events.push(plain_method_info("D:<"));
    let mut transitions: Vec<TransitionInfo> = Vec::new();
    transitions.push(plain_transition_info(0, TransitionKind::Transition, "transit", "A", "B"));
    transitions.push(plain_transition_info(1, TransitionKind::ChangeState, "change", "A", "B"));
    transitions.push(plain_transition_info(2, TransitionKind::Transition, "transit", "B", "C"));
    transitions.push(plain_transition_info(3, TransitionKind::ChangeState, "change", "B", "C"));
    transitions.push(plain_transition_info(4, TransitionKind::Transition, "transit", "C", "D"));
    transitions.push(plain_transition_info(5, TransitionKind::ChangeState, "change", "C", "D"));
    transitions.push(plain_transition_info(6, TransitionKind::ChangeState, "change", "D", "A"));
    transitions.push(plain_transition_info(7, TransitionKind::ChangeState, "reset", "B", "A"));
    transitions.push(plain_transition_info(8, TransitionKind::ChangeState, "reset", "C", "A"));
    transitions.push(plain_transition_info(9, TransitionKind::ChangeState, "reset", "D", "A"));
    let mut interface: Vec<MethodInfo> = Vec::new();
    interface.push(plain_method_info("transit"));
    interface.push(plain_method_info("change"));
    interface.push(plain_method_info("mult"));
    interface.push(plain_method_info("reset"));
    MachineInfo { name: "EventMonitorSm".to_owned(), states, events, transitions, interface }
}

/// The event model a completed `change` dispatch stores.
pub open spec fn change_event_model(v: int) -> EventModel {
    EventModel { name: "change"@, ret: Some(ValueModel::U32(v + 2)) }
}

/// The transition model a `change` dispatch in a state stores.
pub open spec fn change_trans_model(s: EventMonitorSmState) -> TransModel {
    TransModel {
        id: change_id(s),
        kind: TransitionKind::ChangeState,
        old: plain_state(s_name(s)),
        new: plain_state(s_name(change_target(s))),
    }
}

/// The transition model of a chained transition between two states.
pub open spec fn step_trans_model(id: int, from: EventMonitorSmState, to: EventMonitorSmState) ->
    TransModel {
    TransModel {
        id,
        kind: TransitionKind::Transition,
        old: plain_state(s_name(from)),
        new: plain_state(s_name(to)),
    }
}

/// Replaying a `change` dispatch records one handled event and one
/// transition.
proof fn lemma_replay_of_change(
    ehist: Seq<EventModel>,
    ecap: Option<usize>,
    thist: Seq<TransModel>,
    tcap: Option<usize>,
    s: EventMonitorSmState,
    v: int,
)
    ensures
        replay_events(ehist, ecap, notes_change(s, v)) == evict_push(
            ehist,
            ecap,
            change_event_model(v),
        ),
        replay_transitions(thist, tcap, notes_change(s, v)) == evict_push(
            thist,
            tcap,
            change_trans_model(s),
        ),
{
    reveal_with_fuel(replay_events, 5);
    reveal_with_fuel(replay_transitions, 5);
    let n = notes_change(s, v);
    assert(n.drop_first() =~= seq![
        trans_note(change_id(s), TransitionKind::ChangeState, s_name(s), s_name(change_target(s))),
        handled_note_ret("change"@, ValueModel::U32(v + 2)),
    ]);
    assert(n.drop_first().drop_first() =~= seq![
        handled_note_ret("change"@, ValueModel::U32(v + 2)),
    ]);
    assert(n.drop_first().drop_first().drop_first() =~= Seq::<Notification>::empty());
}

/// Replaying the chained transition into the last state peels off its
/// exit event, its transition, the nested `change` dispatch, and its
/// enter event.
proof fn lemma_replay_of_trans_c_d(
    ehist: Seq<EventModel>,
    ecap: Option<usize>,
    thist: Seq<TransModel>,
    tcap: Option<usize>,
    v: int,
)
    ensures
        replay_events(ehist, ecap, notes_trans_c_d(v)) == evict_push(
            evict_push(
                evict_push(ehist, ecap, plain_event(exit_name(EventMonitorSmState::C))),
                ecap,
                change_event_model(v),
            ),
            ecap,
            plain_event(enter_name(EventMonitorSmState::D)),
        ),
        replay_transitions(thist, tcap, notes_trans_c_d(v)) == evict_push(
            evict_push(thist, tcap, step_trans_model(4, EventMonitorSmState::C,
                EventMonitorSmState::D)),
            tcap,
            change_trans_model(EventMonitorSmState::D),
        ),
{
    reveal_with_fuel(replay_events, 6);
    reveal_with_fuel(replay_transitions, 6);
    let prefix = seq![
        sent_note(exit_name(EventMonitorSmState::C)),
        handled_note(exit_name(EventMonitorSmState::C)),
        trans_note(
            4,
            TransitionKind::Transition,
            s_name(EventMonitorSmState::C),
            s_name(EventMonitorSmState::D),
        ),
        sent_note(enter_name(EventMonitorSmState::D)),
    ];
    let inner = notes_change(EventMonitorSmState::D, v);
    let suffix = seq![handled_note(enter_name(EventMonitorSmState::D))];
    assert(notes_trans_c_d(v) == prefix + inner + suffix);
    lemma_replay_events_over_add(ehist, ecap, prefix, inner);
    lemma_replay_events_over_add(ehist, ecap, prefix + inner, suffix);
    lemma_replay_transitions_over_add(thist, tcap, prefix, inner);
    lemma_replay_transitions_over_add(thist, tcap, prefix + inner, suffix);
    assert(prefix.drop_first() =~= prefix.skip(1));
    assert(prefix.skip(1).drop_first() =~= prefix.skip(2));
    assert(prefix.skip(2).drop_first() =~= prefix.skip(3));
    assert(prefix.skip(3).drop_first() =~= Seq::<Notification>::empty());
    let e1 = evict_push(ehist, ecap, plain_event(exit_name(EventMonitorSmState::C)));
    assert(replay_events(ehist, ecap, prefix) == e1);
    let t1 = evict_push(thist, tcap, step_trans_model(4, EventMonitorSmState::C,
        EventMonitorSmState::D));
    assert(replay_transitions(thist, tcap, prefix) == t1);
    lemma_replay_of_change(e1, ecap, t1, tcap, EventMonitorSmState::D, v);
    let e2 = evict_push(e1, ecap, change_event_model(v));
    let t2 = evict_push(t1, tcap, change_trans_model(EventMonitorSmState::D));
    lemma_replay_events_single(e2, ecap, handled_note(enter_name(EventMonitorSmState::D)));
    lemma_replay_transitions_single(t2, tcap, handled_note(enter_name(EventMonitorSmState::D)));
}

/// Replaying the chained transition into the third state peels off its
/// exit event, its transition, the nested `transit` dispatch, and its
/// enter event.
proof fn lemma_replay_of_trans_b_c(
    ehist: Seq<EventModel>,
    ecap: Option<usize>,
    thist: Seq<TransModel>,
    tcap: Option<usize>,
    v: int,
)
    ensures
        replay_events(ehist, ecap, notes_trans_b_c(v)) == evict_push(
            evict_push(
                replay_events(
                    evict_push(ehist, ecap, plain_event(exit_name(EventMonitorSmState::B))),
                    ecap,
                    notes_trans_c_d(v),
                ),
                ecap,
                plain_event("transit"@),
            ),
            ecap,
            plain_event(enter_name(EventMonitorSmState::C)),
        ),
        replay_transitions(thist, tcap, notes_trans_b_c(v)) == replay_transitions(
            evict_push(thist, tcap, step_trans_model(2, EventMonitorSmState::B,
                EventMonitorSmState::C)),
            tcap,
            notes_trans_c_d(v),
        ),
{
    reveal_with_fuel(replay_events, 7);
    reveal_with_fuel(replay_transitions, 7);
    let prefix = seq![
        sent_note(exit_name(EventMonitorSmState::B)),
        handled_note(exit_name(EventMonitorSmState::B)),
        trans_note(
            2,
            TransitionKind::Transition,
            s_name(EventMonitorSmState::B),
            s_name(EventMonitorSmState::C),
        ),
        sent_note(enter_name(EventMonitorSmState::C)),
        sent_note("transit"@),
    ];
    let inner = notes_trans_c_d(v);
    let suffix = seq![
        handled_note("transit"@),
        handled_note(enter_name(EventMonitorSmState::C)),
    ];
    assert(notes_trans_b_c(v) == prefix + inner + suffix);
    lemma_replay_events_over_add(ehist, ecap, prefix, inner);
    lemma_replay_events_over_add(ehist, ecap, prefix + inner, suffix);
    lemma_replay_transitions_over_add(thist, tcap, prefix, inner);
    lemma_replay_transitions_over_add(thist, tcap, prefix + inner, suffix);
    assert(prefix.drop_first() =~= prefix.skip(1));
    assert(prefix.skip(1).drop_first() =~= prefix.skip(2));
    assert(prefix.skip(2).drop_first() =~= prefix.skip(3));
    assert(prefix.skip(3).drop_first() =~= prefix.skip(4));
    assert(prefix.skip(4).drop_first() =~= Seq::<Notification>::empty());
    let e1 = evict_push(ehist, ecap, plain_event(exit_name(EventMonitorSmState::B)));
    assert(replay_events(ehist, ecap, prefix) == e1);
    let t1 = evict_push(thist, tcap, step_trans_model(2, EventMonitorSmState::B,
        EventMonitorSmState::C));
    assert(replay_transitions(thist, tcap, prefix) == t1);
    let e2 = replay_events(e1, ecap, inner);
    let t2 = replay_transitions(t1, tcap, inner);
    assert(suffix.drop_first() =~= seq![handled_note(enter_name(EventMonitorSmState::C))]);
    assert(suffix.drop_first().drop_first() =~= Seq::<Notification>::empty());
    assert(replay_events(e2, ecap, suffix) == evict_push(
        evict_push(e2, ecap, plain_event("transit"@)),
        ecap,
        plain_event(enter_name(EventMonitorSmState::C)),
    ));
    assert(replay_transitions(t2, tcap, suffix) == t2);
}

/// Replaying the chained transition out of the first state peels off its
/// exit event, its transition, the nested `transit` dispatch, and its
/// enter event.
proof fn lemma_replay_of_trans_a_b(
    ehist: Seq<EventModel>,
    ecap: Option<usize>,
    thist: Seq<TransModel>,
    tcap: Option<usize>,
    v: int,
)
    ensures
        replay_events(ehist, ecap, notes_trans_a_b(v)) == evict_push(
            evict_push(
                replay_events(
                    evict_push(ehist, ecap, plain_event(exit_name(EventMonitorSmState::A))),
                    ecap,
                    notes_trans_b_c(v),
                ),
                ecap,
                plain_event("transit"@),
            ),
            ecap,
            plain_event(enter_name(EventMonitorSmState::B)),
        ),
        replay_transitions(thist, tcap, notes_trans_a_b(v)) == replay_transitions(
            evict_push(thist, tcap, step_trans_model(0, EventMonitorSmState::A,
                EventMonitorSmState::B)),
            tcap,
            notes_trans_b_c(v),
        ),
{
    reveal_with_fuel(replay_events, 7);
    reveal_with_fuel(replay_transitions, 7);
    let prefix = seq![
        sent_note(exit_name(EventMonitorSmState::A)),
        handled_note(exit_name(EventMonitorSmState::A)),
        trans_note(
            0,
            TransitionKind::Transition,
            s_name(EventMonitorSmState::A),
            s_name(EventMonitorSmState::B),
        ),
        sent_note(enter_name(EventMonitorSmState::B)),
        sent_note("transit"@),
    ];
    let inner = notes_trans_b_c(v);
    let suffix = seq![
        handled_note("transit"@),
        handled_note(enter_name(EventMonitorSmState::B)),
    ];
    assert(notes_trans_a_b(v) == prefix + inner + suffix);
    lemma_replay_events_over_add(ehist, ecap, prefix, inner);
    lemma_replay_events_over_add(ehist, ecap, prefix + inner, suffix);
    lemma_replay_transitions_over_add(thist, tcap, prefix, inner);
    lemma_replay_transitions_over_add(thist, tcap, prefix + inner, suffix);
    assert(prefix.drop_first() =~= prefix.skip(1));
    assert(prefix.skip(1).drop_first() =~= prefix.skip(2));
    assert(prefix.skip(2).drop_first() =~= prefix.skip(3));
    assert(prefix.skip(3).drop_first() =~= prefix.skip(4));
    assert(prefix.skip(4).drop_first() =~= Seq::<Notification>::empty());
    let e1 = evict_push(ehist, ecap, plain_event(exit_name(EventMonitorSmState::A)));
    assert(replay_events(ehist, ecap, prefix) == e1);
    let t1 = evict_push(thist, tcap, step_trans_model(0, EventMonitorSmState::A,
        EventMonitorSmState::B));
    assert(replay_transitions(thist, tcap, prefix) == t1);
    let e2 = replay_events(e1, ecap, inner);
    let t2 = replay_transitions(t1, tcap, inner);
    assert(suffix.drop_first() =~= seq![handled_note(enter_name(EventMonitorSmState::B))]);
    assert(suffix.drop_first().drop_first() =~= Seq::<Notification>::empty());
    assert(replay_events(e2, ecap, suffix) == evict_push(
        evict_push(e2, ecap, plain_event("transit"@)),
        ecap,
        plain_event(enter_name(EventMonitorSmState::B)),
    ));
    assert(replay_transitions(t2, tcap, suffix) == t2);
}

/// The chained `change` dispatch contributes one sent and one handled
/// name.
proof fn lemma_names_of_change(s: EventMonitorSmState, v: int)
    ensures
        sent_names(notes_change(s, v)) == seq!["change"@],
        handled_names(notes_change(s, v)) == seq!["change"@],
{
    reveal_with_fuel(sent_names, 5);
    reveal_with_fuel(handled_names, 5);
    let n = notes_change(s, v);
    assert(n.drop_last() =~= seq![
        sent_note("change"@),
        trans_note(change_id(s), TransitionKind::ChangeState, s_name(s), s_name(change_target(s))),
    ]);
    assert(n.drop_last().drop_last() =~= seq![sent_note("change"@)]);
    assert(n.drop_last().drop_last().drop_last() =~= Seq::<Notification>::empty());
    assert(sent_names(n) =~= seq!["change"@]);
    assert(handled_names(n) =~= seq!["change"@]);
}

/// The names contributed by the chained transition into the last state.
proof fn lemma_names_of_trans_c_d(v: int)
    ensures
        sent_names(notes_trans_c_d(v)) == seq!["C:<"@, "D:>"@, "change"@],
        handled_names(notes_trans_c_d(v)) == seq!["C:<"@, "change"@, "D:>"@],
{
    reveal_with_fuel(sent_names, 6);
    reveal_with_fuel(handled_names, 6);
    let prefix = seq![
        sent_note(exit_name(EventMonitorSmState::C)),
        handled_note(exit_name(EventMonitorSmState::C)),
        trans_note(
            4,
            TransitionKind::Transition,
            s_name(EventMonitorSmState::C),
            s_name(EventMonitorSmState::D),
        ),
        sent_note(enter_name(EventMonitorSmState::D)),
    ];
    let suffix = seq![handled_note(enter_name(EventMonitorSmState::D))];
    assert(notes_trans_c_d(v) == prefix + notes_change(EventMonitorSmState::D, v) + suffix);
    lemma_names_of_change(EventMonitorSmState::D, v);
    lemma_sent_names_over_add(prefix, notes_change(EventMonitorSmState::D, v));
    lemma_sent_names_over_add(prefix + notes_change(EventMonitorSmState::D, v), suffix);
    lemma_handled_names_over_add(prefix, notes_change(EventMonitorSmState::D, v));
    lemma_handled_names_over_add(prefix + notes_change(EventMonitorSmState::D, v), suffix);
    assert(prefix.drop_last() =~= prefix.take(3));
    assert(prefix.take(3).drop_last() =~= prefix.take(2));
    assert(prefix.take(2).drop_last() =~= prefix.take(1));
    assert(prefix.take(1).drop_last() =~= Seq::<Notification>::empty());
    assert(sent_names(prefix) =~= seq!["C:<"@, "D:>"@]);
    assert(handled_names(prefix) =~= seq!["C:<"@]);
    assert(sent_names(suffix) =~= Seq::<Seq<char>>::empty());
    assert(handled_names(suffix) =~= seq!["D:>"@]);
    assert(sent_names(notes_trans_c_d(v)) =~= seq!["C:<"@, "D:>"@, "change"@]);
    assert(handled_names(notes_trans_c_d(v)) =~= seq!["C:<"@, "change"@, "D:>"@]);
}

/// The names contributed by the chained transition into the third state.
proof fn lemma_names_of_trans_b_c(v: int)
    ensures
        sent_names(notes_trans_b_c(v)) == seq![
            "B:<"@,
            "C:>"@,
            "transit"@,
            "C:<"@,
            "D:>"@,
            "change"@,
        ],
        handled_names(notes_trans_b_c(v)) == seq![
            "B:<"@,
            "C:<"@,
            "change"@,
            "D:>"@,
            "transit"@,
            "C:>"@,
        ],
{
    reveal_with_fuel(sent_names, 7);
    reveal_with_fuel(handled_names, 7);
    let prefix = seq![
        sent_note(exit_name(EventMonitorSmState::B)),
        handled_note(exit_name(EventMonitorSmState::B)),
        trans_note(
            2,
            TransitionKind::Transition,
            s_name(EventMonitorSmState::B),
            s_name(EventMonitorSmState::C),
        ),
        sent_note(enter_name(EventMonitorSmState::C)),
        sent_note("transit"@),
    ];
    let suffix = seq![
        handled_note("transit"@),
        handled_note(enter_name(EventMonitorSmState::C)),
    ];
    assert(notes_trans_b_c(v) == prefix + notes_trans_c_d(v) + suffix);
    lemma_names_of_trans_c_d(v);
    lemma_sent_names_over_add(prefix, notes_trans_c_d(v));
    lemma_sent_names_over_add(prefix + notes_trans_c_d(v), suffix);
    lemma_handled_names_over_add(prefix, notes_trans_c_d(v));
    lemma_handled_names_over_add(prefix + notes_trans_c_d(v), suffix);
    assert(prefix.drop_last() =~= prefix.take(4));
    assert(prefix.take(4).drop_last() =~= prefix.take(3));
    assert(prefix.take(3).drop_last() =~= prefix.take(2));
    assert(prefix.take(2).drop_last() =~= prefix.take(1));
    assert(prefix.take(1).drop_last() =~= Seq::<Notification>::empty());
    assert(sent_names(prefix) =~= seq!["B:<"@, "C:>"@, "transit"@]);
    assert(handled_names(prefix) =~= seq!["B:<"@]);
    assert(suffix.drop_last() =~= suffix.take(1));
    assert(suffix.take(1).drop_last() =~= Seq::<Notification>::empty());
    assert(sent_names(suffix) =~= Seq::<Seq<char>>::empty());
    assert(handled_names(suffix) =~= seq!["transit"@, "C:>"@]);
    assert(sent_names(notes_trans_b_c(v)) =~= seq![
        "B:<"@,
        "C:>"@,
        "transit"@,
        "C:<"@,
        "D:>"@,
        "change"@,
    ]);
    assert(handled_names(notes_trans_b_c(v)) =~= seq![
        "B:<"@,
        "C:<"@,
        "change"@,
        "D:>"@,
        "transit"@,
        "C:>"@,
    ]);
}

/// The names contributed by the chained transition out of the first
/// state.
proof fn lemma_names_of_trans_a_b(v: int)
    ensures
        sent_names(notes_trans_a_b(v)) == seq![
            "A:<"@,
            "B:>"@,
            "transit"@,
            "B:<"@,
            "C:>"@,
            "transit"@,
            "C:<"@,
            "D:>"@,
            "change"@,
        ],
        handled_names(notes_trans_a_b(v)) == seq![
            "A:<"@,
            "B:<"@,
            "C:<"@,
            "change"@,
            "D:>"@,
            "transit"@,
            "C:>"@,
            "transit"@,
            "B:>"@,
        ],
{
    reveal_with_fuel(sent_names, 7);
    reveal_with_fuel(handled_names, 7);
    let prefix = seq![
        sent_note(exit_name(EventMonitorSmState::A)),
        handled_note(exit_name(EventMonitorSmState::A)),
        trans_note(
            0,
            TransitionKind::Transition,
            s_name(EventMonitorSmState::A),
            s_name(EventMonitorSmState::B),
        ),
        sent_note(enter_name(EventMonitorSmState::B)),
        sent_note("transit"@),
    ];
    let suffix = seq![
        handled_note("transit"@),
        handled_note(enter_name(EventMonitorSmState::B)),
    ];
    assert(notes_trans_a_b(v) == prefix + notes_trans_b_c(v) + suffix);
    lemma_names_of_trans_b_c(v);
    lemma_sent_names_over_add(prefix, notes_trans_b_c(v));
    lemma_sent_names_over_add(prefix + notes_trans_b_c(v), suffix);
    lemma_handled_names_over_add(prefix, notes_trans_b_c(v));
    lemma_handled_names_over_add(prefix + notes_trans_b_c(v), suffix);
    assert(prefix.drop_last() =~= prefix.take(4));
    assert(prefix.take(4).drop_last() =~= prefix.take(3));
    assert(prefix.take(3).drop_last() =~= prefix.take(2));
    assert(prefix.take(2).drop_last() =~= prefix.take(1));
    assert(prefix.take(1).drop_last() =~= Seq::<Notification>::empty());
    assert(sent_names(prefix) =~= seq!["A:<"@, "B:>"@, "transit"@]);
    assert(handled_names(prefix) =~= seq!["A:<"@]);
    assert(suffix.drop_last() =~= suffix.take(1));
    assert(suffix.take(1).drop_last() =~= Seq::<Notification>::empty());
    assert(sent_names(suffix) =~= Seq::<Seq<char>>::empty());
    assert(handled_names(suffix) =~= seq!["transit"@, "B:>"@]);
    assert(sent_names(notes_trans_a_b(v)) =~= seq![
        "A:<"@,
        "B:>"@,
        "transit"@,
        "B:<"@,
        "C:>"@,
        "transit"@,
        "C:<"@,
        "D:>"@,
        "change"@,
    ]);
    assert(handled_names(notes_trans_a_b(v)) =~= seq![
        "A:<"@,
        "B:<"@,
        "C:<"@,
        "change"@,
        "D:>"@,
        "transit"@,
        "C:>"@,
        "transit"@,
        "B:>"@,
    ]);
}

/// The defining, non-obvious property of the notification protocol,
/// shown on the chained dispatch out of the first state, which
/// transitions through every state and ends in a change-state back: the
/// sent notifications appear in causal, depth-first order as nested
/// dispatches are issued, while the handled notifications appear in
/// stack-unwind order as they complete. The two orders diverge; both are
/// exact sequences, not mere memberships.
pub proof fn lemma_chained_transit_orders(v: int)
    ensures
        sent_names(notes_transit(EventMonitorSmState::A, v)) == seq![
            "transit"@,
            "A:<"@,
            "B:>"@,
            "transit"@,
            "B:<"@,
            "C:>"@,
            "transit"@,
            "C:<"@,
            "D:>"@,
            "change"@,
        ],
        handled_names(notes_transit(EventMonitorSmState::A, v)) == seq![
            "A:<"@,
            "B:<"@,
            "C:<"@,
            "change"@,
            "D:>"@,
            "transit"@,
            "C:>"@,
            "transit"@,
            "B:>"@,
            "transit"@,
        ],
{
    reveal_with_fuel(sent_names, 3);
    reveal_with_fuel(handled_names, 3);
    let prefix = seq![sent_note("transit"@)];
    let suffix = seq![handled_note("transit"@)];
    assert(notes_transit(EventMonitorSmState::A, v) == prefix + notes_trans_a_b(v) + suffix);
    lemma_names_of_trans_a_b(v);
    lemma_sent_names_over_add(prefix, notes_trans_a_b(v));
    lemma_sent_names_over_add(prefix + notes_trans_a_b(v), suffix);
    lemma_handled_names_over_add(prefix, notes_trans_a_b(v));
    lemma_handled_names_over_add(prefix + notes_trans_a_b(v), suffix);
    assert(prefix.drop_last() =~= Seq::<Notification>::empty());
    assert(suffix.drop_last() =~= Seq::<Notification>::empty());
    assert(sent_names(prefix) =~= seq!["transit"@]);
    assert(handled_names(prefix) =~= Seq::<Seq<char>>::empty());
    assert(sent_names(suffix) =~= Seq::<Seq<char>>::empty());
    assert(handled_names(suffix) =~= seq!["transit"@]);
    assert(sent_names(notes_transit(EventMonitorSmState::A, v)) =~= seq![
        "transit"@,
        "A:<"@,
        "B:>"@,
        "transit"@,
        "B:<"@,
        "C:>"@,
        "transit"@,
        "C:<"@,
        "D:>"@,
        "change"@,
    ]);
    assert(handled_names(notes_transit(EventMonitorSmState::A, v)) =~= seq![
        "A:<"@,
        "B:<"@,
        "C:<"@,
        "change"@,
        "D:>"@,
        "transit"@,
        "C:>"@,
        "transit"@,
        "B:>"@,
        "transit"@,
    ]);
}

/// The printable name of a state.
fn state_name(s: EventMonitorSmState) -> (r: &'static str)
    ensures
        r@ == s_name(s),
{
    match s {
        EventMonitorSmState::A => "A",
        EventMonitorSmState::B => "B",
        EventMonitorSmState::C => "C",
        EventMonitorSmState::D => "D",
    }
}

/// A machine whose event stream and bounded histories exercise the
/// monitor, with a running counter as its single domain variable.
pub struct EventMonitorSm<EC: EventCallback, TC: TransitionCallback> {
    pub state: EventMonitorSmState,
    pub val: u32,
    pub current: StateInstance,
    pub monitor: EventMonitor<EC, TC>,
}

impl<EC: EventCallback, TC: TransitionCallback> EventMonitorSm<EC, TC> {
    /// The live current state matches the state tag.
    pub open spec fn wf(&self) -> bool {
        self.current@ == plain_state(s_name(self.state))
    }

    /// The machine's registries and capacities are unchanged between two
    /// of its values.
    pub open spec fn same_monitor_setup(&self, other: &Self) -> bool {
        &&& self.monitor.sent_callbacks() == other.monitor.sent_callbacks()
        &&& self.monitor.handled_callbacks() == other.monitor.handled_callbacks()
        &&& self.monitor.trans_callbacks() == other.monitor.trans_callbacks()
        &&& self.monitor.event_capacity() == other.monitor.event_capacity()
        &&& self.monitor.transition_capacity() == other.monitor.transition_capacity()
    }

    /// Create the machine in its first state, with bounded histories,
    /// and dispatch the initial enter event, which is therefore the
    /// first entry of the event history.
    pub fn new() -> (r: Self)
        ensures
            r.state == EventMonitorSmState::A,
            r.val == 0,
            r.wf(),
            r.monitor.wf(),
            r.monitor.event_capacity() == Some(5usize),
            r.monitor.transition_capacity() == Some(3usize),
            r.monitor.notifications() == seq![
                sent_note(enter_name(EventMonitorSmState::A)),
                handled_note(enter_name(EventMonitorSmState::A)),
            ],
            r.monitor.events().len() == 1,
            r.monitor.events()[0]@ == crate::machines::plain_event(
                enter_name(EventMonitorSmState::A),
            ),
            r.monitor.transitions().len() == 0,
            r.monitor.sent_callbacks() == Seq::<EC>::empty(),
            r.monitor.handled_callbacks() == Seq::<EC>::empty(),
            r.monitor.trans_callbacks() == Seq::<TC>::empty(),
    {
        let mut machine = EventMonitorSm {
            state: EventMonitorSmState::A,
            val: 0,
            current: plain_state_instance("A"),
            monitor: EventMonitor::new(Some(5), Some(3)),
        };
        let en = plain_event_instance("A:>");
        machine.monitor.event_sent(&en);
        machine.monitor.event_handled(en);
        proof {
            assert(machine.monitor.notifications() =~= seq![
                sent_note(enter_name(EventMonitorSmState::A)),
                handled_note(enter_name(EventMonitorSmState::A)),
            ]);
        }
        machine
    }

    /// The monitor observing this machine.
    pub fn event_monitor(&self) -> (m: &EventMonitor<EC, TC>)
        ensures
            m == &self.monitor,
    {
        &self.monitor
    }

    /// Mutable access to the monitor, to register callbacks or adjust
    /// history capacities.
    pub fn event_monitor_mut(&mut self) -> (m: &mut EventMonitor<EC, TC>)
        ensures
            *m == old(self).monitor,
            final(self).monitor == *final(m),
            final(self).state == old(self).state,
            final(self).val == old(self).val,
            final(self).current == old(self).current,
    {
        &mut self.monitor
    }

    /// A read-only reference to the live current state.
    pub fn current_state(&self) -> (r: &StateInstance)
        ensures
            r == &self.current,
    {
        &self.current
    }

    /// The machine-wide variables: the running counter under its name.
    pub fn domain_variables(&self) -> (r: Environment)
        ensures
            r@ == seq![("val"@, ValueModel::U32(self.val as int))],
    {
        let mut entries: Vec<(String, Value)> = Vec::new();
        entries.push(("val".to_owned(), Value::U32(self.val)));
        let r = Environment::from_entries(entries);
        proof {
            assert(r@ =~= seq![("val"@, ValueModel::U32(self.val as int))]);
        }
        r
    }

    /// Perform one change-state: swap the current state and notify the
    /// monitor. No exit or enter events are sent.
    fn do_change_state(
        &mut self,
        id: u64,
        event_name: &str,
        from: EventMonitorSmState,
        to: EventMonitorSmState,
    )
        requires
            old(self).state == from,
            old(self).wf(),
        ensures
            final(self).state == to,
            final(self).wf(),
            final(self).val == old(self).val,
            final(self).monitor.notifications() == old(self).monitor.notifications().push(
                trans_note(id as int, TransitionKind::ChangeState, s_name(from), s_name(to)),
            ),
            final(self).same_monitor_setup(old(self)),
            final(self).monitor.events() == old(self).monitor.events(),
            final(self).monitor.transitions_model() == evict_push(
                old(self).monitor.transitions_model(),
                old(self).monitor.transition_capacity(),
                (TransModel {
                    id: id as int,
                    kind: TransitionKind::ChangeState,
                    old: plain_state(s_name(from)),
                    new: plain_state(s_name(to)),
                }),
            ),
            old(self).monitor.wf() ==> final(self).monitor.wf(),
    {
        let old_inst = self.current.clone();
        let new_inst = plain_state_instance(state_name(to));
        self.current = new_inst.clone();
        self.state = to;
        let info = plain_transition_info(
            id,
            TransitionKind::ChangeState,
            event_name,
            state_name(from),
            state_name(to),
        );
        let t = TransitionInstance::change_state(info, old_inst, new_inst);
        self.monitor.transition_occurred(t);
    }

    /// Dispatch the `change` event: a change-state to the next state,
    /// returning the counter after adding two to it.
    pub fn change(&mut self) -> (r: u32)
        requires
            old(self).wf(),
            old(self).val + 2 <= u32::MAX,
        ensures
            r == old(self).val + 2,
            final(self).val == old(self).val + 2,
            final(self).state == change_target(old(self).state),
            final(self).wf(),
            final(self).monitor.notifications() == old(self).monitor.notifications()
                + notes_change(old(self).state, old(self).val as int),
            final(self).monitor.events_model() == evict_push(
                old(self).monitor.events_model(),
                old(self).monitor.event_capacity(),
                change_event_model(old(self).val as int),
            ),
            final(self).monitor.transitions_model() == evict_push(
                old(self).monitor.transitions_model(),
                old(self).monitor.transition_capacity(),
                change_trans_model(old(self).state),
            ),
            final(self).same_monitor_setup(old(self)),
            old(self).monitor.wf() ==> final(self).monitor.wf(),
    {
        let from = self.state;
        let info = MethodInfo {
            name: "change".to_owned(),
            parameters: Vec::new(),
            return_type: Some("u32".to_owned()),
        };
        let event = MethodInstance::new(info, Environment::empty());
        self.monitor.event_sent(&event);
        let to = match from {
            EventMonitorSmState::A => EventMonitorSmState::B,
            EventMonitorSmState::B => EventMonitorSmState::C,
            EventMonitorSmState::C => EventMonitorSmState::D,
            EventMonitorSmState::D => EventMonitorSmState::A,
        };
        let id: u64 = match from {
            EventMonitorSmState::A => 1,
            EventMonitorSmState::B => 3,
            EventMonitorSmState::C => 5,
            EventMonitorSmState::D => 6,
        };
        self.do_change_state(id, "change", from, to);
        self.val = self.val + 2;
        let r = self.val;
        self.monitor.event_handled(event.with_return(Value::U32(r)));
        proof {
            assert(self.monitor.notifications() =~= old(self).monitor.notifications()
                + notes_change(from, old(self).val as int));
        }
        r
    }

    /// The chained transition into the last state: its enter handler
    /// dispatches `change`, which change-states back to the first state.
    fn trans_c_d(&mut self)
        requires
            old(self).state == EventMonitorSmState::C,
            old(self).wf(),
            old(self).val + 2 <= u32::MAX,
        ensures
            final(self).state == EventMonitorSmState::A,
            final(self).wf(),
            final(self).val == old(self).val + 2,
            final(self).monitor.notifications() == old(self).monitor.notifications()
                + notes_trans_c_d(old(self).val as int),
            final(self).monitor.events_model() == replay_events(
                old(self).monitor.events_model(),
                old(self).monitor.event_capacity(),
                notes_trans_c_d(old(self).val as int),
            ),
            final(self).monitor.transitions_model() == replay_transitions(
                old(self).monitor.transitions_model(),
                old(self).monitor.transition_capacity(),
                notes_trans_c_d(old(self).val as int),
            ),
            final(self).same_monitor_setup(old(self)),
            old(self).monitor.wf() ==> final(self).monitor.wf(),
    {
        let exit_event = plain_event_instance("C:<");
        self.monitor.event_sent(&exit_event);
        self.monitor.event_handled(exit_event);
        let old_inst = self.current.clone();
        let new_inst = plain_state_instance("D");
        self.current = new_inst.clone();
        self.state = EventMonitorSmState::D;
        let info = plain_transition_info(4, TransitionKind::Transition, "transit", "C", "D");
        let t = TransitionInstance::new(
            info,
            old_inst,
            new_inst,
            Environment::empty(),
            Environment::empty(),
        );
        self.monitor.transition_occurred(t);
        let enter_event = plain_event_instance("D:>");
        self.monitor.event_sent(&enter_event);
        let _ = self.change();
        self.monitor.event_handled(enter_event);
        proof {
            assert(self.monitor.notifications() =~= old(self).monitor.notifications()
                + notes_trans_c_d(old(self).val as int));
            lemma_replay_of_trans_c_d(
                old(self).monitor.events_model(),
                old(self).monitor.event_capacity(),
                old(self).monitor.transitions_model(),
                old(self).monitor.transition_capacity(),
                old(self).val as int,
            );
        }
    }

    /// The chained transition into the third state: its enter handler
    /// dispatches `transit` again.
    fn trans_b_c(&mut self)
        requires
            old(self).state == EventMonitorSmState::B,
            old(self).wf(),
            old(self).val + 2 <= u32::MAX,
        ensures
            final(self).state == EventMonitorSmState::A,
            final(self).wf(),
            final(self).val == old(self).val + 2,
            final(self).monitor.notifications() == old(self).monitor.notifications()
                + notes_trans_b_c(old(self).val as int),
            final(self).monitor.events_model() == replay_events(
                old(self).monitor.events_model(),
                old(self).monitor.event_capacity(),
                notes_trans_b_c(old(self).val as int),
            ),
            final(self).monitor.transitions_model() == replay_transitions(
                old(self).monitor.transitions_model(),
                old(self).monitor.transition_capacity(),
                notes_trans_b_c(old(self).val as int),
            ),
            final(self).same_monitor_setup(old(self)),
            old(self).monitor.wf() ==> final(self).monitor.wf(),
    {
        let exit_event = plain_event_instance("B:<");
        self.monitor.event_sent(&exit_event);
        self.monitor.event_handled(exit_event);
        let old_inst = self.current.clone();
        let new_inst = plain_state_instance("C");
        self.current = new_inst.clone();
        self.state = EventMonitorSmState::C;
        let info = plain_transition_info(2, TransitionKind::Transition, "transit", "B", "C");
        let t = TransitionInstance::new(
            info,
            old_inst,
            new_inst,
            Environment::empty(),
            Environment::empty(),
        );
        self.monitor.transition_occurred(t);
        let enter_event = plain_event_instance("C:>");
        self.monitor.event_sent(&enter_event);
        let chained = plain_event_instance("transit");
        self.monitor.event_sent(&chained);
        self.trans_c_d();
        self.monitor.event_handled(chained);
        self.monitor.event_handled(enter_event);
        proof {
            assert(self.monitor.notifications() =~= old(self).monitor.notifications()
                + notes_trans_b_c(old(self).val as int));
            lemma_replay_of_trans_b_c(
                old(self).monitor.events_model(),
                old(self).monitor.event_capacity(),
                old(self).monitor.transitions_model(),
                old(self).monitor.transition_capacity(),
                old(self).val as int,
            );
        }
    }

    /// The chained transition out of the first state.
    fn trans_a_b(&mut self)
        requires
            old(self).state == EventMonitorSmState::A,
            old(self).wf(),
            old(self).val + 2 <= u32::MAX,
        ensures
            final(self).state == EventMonitorSmState::A,
            final(self).wf(),
            final(self).val == old(self).val + 2,
            final(self).monitor.notifications() == old(self).monitor.notifications()
                + notes_trans_a_b(old(self).val as int),
            final(self).monitor.events_model() == replay_events(
                old(self).monitor.events_model(),
                old(self).monitor.event_capacity(),
                notes_trans_a_b(old(self).val as int),
            ),
            final(self).monitor.transitions_model() == replay_transitions(
                old(self).monitor.transitions_model(),
                old(self).monitor.transition_capacity(),
                notes_trans_a_b(old(self).val as int),
            ),
            final(self).same_monitor_setup(old(self)),
            old(self).monitor.wf() ==> final(self).monitor.wf(),
    {
        let exit_event = plain_event_instance("A:<");
        self.monitor.event_sent(&exit_event);
        self.monitor.event_handled(exit_event);
        let old_inst = self.current.clone();
        let new_inst = plain_state_instance("B");
        self.current = new_inst.clone();
        self.state = EventMonitorSmState::B;
        let info = plain_transition_info(0, TransitionKind::Transition, "transit", "A", "B");
        let t = TransitionInstance::new(
            info,
            old_inst,
            new_inst,
            Environment::empty(),
            Environment::empty(),
        );
        self.monitor.transition_occurred(t);
        let enter_event = plain_event_instance("B:>");
        self.monitor.event_sent(&enter_event);
        let chained = plain_event_instance("transit");
        self.monitor.event_sent(&chained);
        self.trans_b_c();
        self.monitor.event_handled(chained);
        self.monitor.event_handled(enter_event);
        proof {
            assert(self.monitor.notifications() =~= old(self).monitor.notifications()
                + notes_trans_a_b(old(self).val as int));
            lemma_replay_of_trans_a_b(
                old(self).monitor.events_model(),
                old(self).monitor.event_capacity(),
                old(self).monitor.transitions_model(),
                old(self).monitor.transition_capacity(),
                old(self).val as int,
            );
        }
    }

    /// Dispatch the `transit` event: the transition chain runs through
    /// every remaining state and ends with a change-state back to the
    /// first state, all before this dispatch completes. The last state
    /// does not handle the event: both notifications still fire, but
    /// nothing else happens.
    pub fn transit(&mut self, d: i32)
        requires
            old(self).wf(),
            old(self).state != EventMonitorSmState::D ==> old(self).val + 2 <= u32::MAX,
        ensures
            final(self).state == transit_target(old(self).state),
            final(self).wf(),
            final(self).val == if old(self).state is D {
                old(self).val as int
            } else {
                old(self).val + 2
            },
            final(self).monitor.notifications() == old(self).monitor.notifications()
                + notes_transit(old(self).state, old(self).val as int),
            final(self).monitor.events_model() == replay_events(
                old(self).monitor.events_model(),
                old(self).monitor.event_capacity(),
                notes_transit(old(self).state, old(self).val as int),
            ),
            final(self).monitor.transitions_model() == replay_transitions(
                old(self).monitor.transitions_model(),
                old(self).monitor.transition_capacity(),
                notes_transit(old(self).state, old(self).val as int),
            ),
            final(self).same_monitor_setup(old(self)),
            old(self).monitor.wf() ==> final(self).monitor.wf(),
    {
        let mut arguments: Vec<(String, Value)> = Vec::new();
        arguments.push(("d".to_owned(), Value::I32(d)));
        let info = MethodInfo {
            name: "transit".to_owned(),
            parameters: Vec::new(),
            return_type: None,
        };
        let event = MethodInstance::new(info, Environment::from_entries(arguments));
        self.monitor.event_sent(&event);
        match self.state {
            EventMonitorSmState::A => self.trans_a_b(),
            EventMonitorSmState::B => self.trans_b_c(),
            EventMonitorSmState::C => self.trans_c_d(),
            EventMonitorSmState::D => {},
        }
        self.monitor.event_handled(event);
        proof {
            assert(self.monitor.notifications() =~= old(self).monitor.notifications()
                + notes_transit(old(self).state, old(self).val as int));
            let ghost ehist = old(self).monitor.events_model();
            let ghost ecap = old(self).monitor.event_capacity();
            let ghost thist = old(self).monitor.transitions_model();
            let ghost tcap = old(self).monitor.transition_capacity();
            let ghost v = old(self).val as int;
            let ghost head = seq![sent_note("transit"@)];
            let ghost tail = seq![handled_note("transit"@)];
            let ghost mid = match old(self).state {
                EventMonitorSmState::A => notes_trans_a_b(v),
                EventMonitorSmState::B => notes_trans_b_c(v),
                EventMonitorSmState::C => notes_trans_c_d(v),
                EventMonitorSmState::D => Seq::empty(),
            };
            assert(notes_transit(old(self).state, v) == head + mid + tail);
            lemma_replay_events_over_add(ehist, ecap, head, mid);
            lemma_replay_events_over_add(ehist, ecap, head + mid, tail);
            lemma_replay_events_single(ehist, ecap, sent_note("transit"@));
            assert(replay_events(ehist, ecap, head) == ehist) by {
                assert(head =~= seq![sent_note("transit"@)]);
            }
            lemma_replay_events_single(
                replay_events(ehist, ecap, mid),
                ecap,
                handled_note("transit"@),
            );
            assert(replay_events(replay_events(ehist, ecap, mid), ecap, tail) == evict_push(
                replay_events(ehist, ecap, mid),
                ecap,
                plain_event("transit"@),
            ));
            lemma_replay_transitions_over_add(thist, tcap, head, mid);
            lemma_replay_transitions_over_add(thist, tcap, head + mid, tail);
            lemma_replay_transitions_single(thist, tcap, sent_note("transit"@));
            lemma_replay_transitions_single(
                replay_transitions(thist, tcap, mid),
                tcap,
                handled_note("transit"@),
            );
        }
    }

    /// Dispatch the `mult` event: no transition occurs in any state; the
    /// product is returned and the two operands are added to the
    /// counter.
    pub fn mult(&mut self, a: i32, b: i32) -> (r: i32)
        requires
            old(self).wf(),
            i32::MIN <= a * b <= i32::MAX,
            0 <= old(self).val + a + b <= u32::MAX,
        ensures
            r == a * b,
            final(self).val == old(self).val + a + b,
            final(self).state == old(self).state,
            final(self).current == old(self).current,
            final(self).wf(),
            final(self).monitor.notifications() == old(self).monitor.notifications()
                + notes_mult(a as int, b as int),
            final(self).monitor.events_model() == evict_push(
                old(self).monitor.events_model(),
                old(self).monitor.event_capacity(),
                (EventModel { name: "mult"@, ret: Some(ValueModel::I32(a * b)) }),
            ),
            final(self).same_monitor_setup(old(self)),
            final(self).monitor.transitions() == old(self).monitor.transitions(),
            old(self).monitor.wf() ==> final(self).monitor.wf(),
    {
        let mut arguments: Vec<(String, Value)> = Vec::new();
        arguments.push(("a".to_owned(), Value::I32(a)));
        arguments.push(("b".to_owned(), Value::I32(b)));
        let info = MethodInfo {
            name: "mult".to_owned(),
            parameters: Vec::new(),
            return_type: Some("i32".to_owned()),
        };
        let event = MethodInstance::new(info, Environment::from_entries(arguments));
        self.monitor.event_sent(&event);
        let sum: i64 = self.val as i64 + a as i64 + b as i64;
        self.val = sum as u32;
        let r = a * b;
        self.monitor.event_handled(event.with_return(Value::I32(r)));
        proof {
            assert(self.monitor.notifications() =~= old(self).monitor.notifications()
                + notes_mult(a as int, b as int));
        }
        r
    }

    /// Dispatch the `reset` event: a change-state back to the first
    /// state, or nothing if the machine is already there. The counter is
    /// untouched.
    pub fn reset(&mut self)
        requires
            old(self).wf(),
        ensures
            final(self).state == EventMonitorSmState::A,
            final(self).wf(),
            final(self).val == old(self).val,
            final(self).monitor.notifications() == old(self).monitor.notifications()
                + notes_reset(old(self).state),
            final(self).monitor.events_model() == evict_push(
                old(self).monitor.events_model(),
                old(self).monitor.event_capacity(),
                plain_event("reset"@),
            ),
            final(self).monitor.transitions_model() == if old(self).state is A {
                old(self).monitor.transitions_model()
            } else {
                evict_push(
                    old(self).monitor.transitions_model(),
                    old(self).monitor.transition_capacity(),
                    (TransModel {
                        id: reset_id(old(self).state),
                        kind: TransitionKind::ChangeState,
                        old: plain_state(s_name(old(self).state)),
                        new: plain_state(s_name(EventMonitorSmState::A)),
                    }),
                )
            },
            final(self).same_monitor_setup(old(self)),
            old(self).monitor.wf() ==> final(self).monitor.wf(),
    {
        let from = self.state;
        let event = plain_event_instance("reset");
        self.monitor.event_sent(&event);
        match from {
            EventMonitorSmState::A => {},
            EventMonitorSmState::B => self.do_change_state(
                7,
                "reset",
                from,
                EventMonitorSmState::A,
            ),
            EventMonitorSmState::C => self.do_change_state(
                8,
                "reset",
                from,
                EventMonitorSmState::A,
            ),
            EventMonitorSmState::D => self.do_change_state(
                9,
                "reset",
                from,
                EventMonitorSmState::A,
            ),
        }
        self.monitor.event_handled(event);
        proof {
            assert(self.monitor.notifications() =~= old(self).monitor.notifications()
                + notes_reset(old(self).state));
        }
    }
}

} // verus!
