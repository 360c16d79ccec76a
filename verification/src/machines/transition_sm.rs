//! A five-state machine exercising both state-change operations: a
//! standard transition, which sends an exit event to the old state and an
//! enter event to the new state, and a change-state, which bypasses both.
//! Entering one state chains a further transition and entering another
//! chains a change-state, so dispatching one event can cascade. The
//! contracts state the exact notification sequence of every dispatch.

use vstd::prelude::*;
use vstd::string::StringExecFns;
use crate::environment::Environment;
use crate::event::{EventCallback, EventMonitor, Notification, TransitionCallback, evict_push,
    lemma_replay_events_over_add, lemma_replay_events_single, lemma_replay_transitions_over_add,
    lemma_replay_transitions_single, replay_events, replay_transitions};
use crate::info::TransitionKind;
use crate::live::{EventModel, StateInstance, TransModel, TransitionInstance};
use crate::info::{MachineInfo, MethodInfo, StateInfo, TransitionInfo};
use crate::machines::{
    plain_event, plain_event_instance, plain_method_info, plain_state, plain_state_info,
    plain_state_instance, plain_transition_info, handled_note, sent_note, trans_note,
    transition_entry,
};

verus! {

/// The states of the machine.
#[derive(Clone, Copy, Debug, PartialEq, Eq, Structural)]
pub enum TransitionState {
    S0,
    S1,
    S2,
    S3,
    S4,
}

/// The printable name of a state, in the model.
pub open spec fn s_name(s: TransitionState) -> Seq<char> {
    match s {
        TransitionState::S0 => "S0"@,
        TransitionState::S1 => "S1"@,
        TransitionState::S2 => "S2"@,
        TransitionState::S3 => "S3"@,
        TransitionState::S4 => "S4"@,
    }
}

/// The name of the enter event delivered to a state.
pub open spec fn enter_name(s: TransitionState) -> Seq<char> {
    match s {
        TransitionState::S0 => "S0:>"@,
        TransitionState::S1 => "S1:>"@,
        TransitionState::S2 => "S2:>"@,
        TransitionState::S3 => "S3:>"@,
        TransitionState::S4 => "S4:>"@,
    }
}

/// The name of the exit event delivered to a state.
pub open spec fn exit_name(s: TransitionState) -> Seq<char> {
    match s {
        TransitionState::S0 => "S0:<"@,
        TransitionState::S1 => "S1:<"@,
        TransitionState::S2 => "S2:<"@,
        TransitionState::S3 => "S3:<"@,
        TransitionState::S4 => "S4:<"@,
    }
}

/// The label a hook method records: the two state names joined by an
/// arrow, double-headed for a change-state.
pub open spec fn hook_label(from: TransitionState, to: TransitionState, change: bool) -> Seq<
    char,
> {
    if change {
        s_name(from) + "->>"@ + s_name(to)
    } else {
        s_name(from) + "->"@ + s_name(to)
    }
}

/// The printable name of a state.
fn state_name(s: TransitionState) -> (r: &'static str)
    ensures
        r@ == s_name(s),
{
    match s {
        TransitionState::S0 => "S0",
        TransitionState::S1 => "S1",
        TransitionState::S2 => "S2",
        TransitionState::S3 => "S3",
        TransitionState::S4 => "S4",
    }
}

/// The name of the enter event delivered to a state.
fn state_enter_event(s: TransitionState) -> (r: &'static str)
    ensures
        r@ == enter_name(s),
{
    match s {
        TransitionState::S0 => "S0:>",
        TransitionState::S1 => "S1:>",
        TransitionState::S2 => "S2:>",
        TransitionState::S3 => "S3:>",
        TransitionState::S4 => "S4:>",
    }
}

/// The name of the exit event delivered to a state.
fn state_exit_event(s: TransitionState) -> (r: &'static str)
    ensures
        r@ == exit_name(s),
{
    match s {
        TransitionState::S0 => "S0:<",
        TransitionState::S1 => "S1:<",
        TransitionState::S2 => "S2:<",
        TransitionState::S3 => "S3:<",
        TransitionState::S4 => "S4:<",
    }
}

/// The notifications of one change-state: exactly one transition
/// notification, no exit or enter events.
pub open spec fn notes_change_state(id: int, from: TransitionState, to: TransitionState) -> Seq<
    Notification,
> {
    seq![trans_note(id, TransitionKind::ChangeState, s_name(from), s_name(to))]
}

/// The notifications of one standard transition whose target's enter
/// handler dispatches nothing further: exit sent, exit handled, the
/// transition, enter sent, enter handled.
pub open spec fn notes_transition_plain(id: int, from: TransitionState, to: TransitionState) ->
    Seq<Notification> {
    seq![
        sent_note(exit_name(from)),
        handled_note(exit_name(from)),
        trans_note(id, TransitionKind::Transition, s_name(from), s_name(to)),
        sent_note(enter_name(to)),
        handled_note(enter_name(to)),
    ]
}

/// The notifications of the transition that entering the second state
/// chains: its enter handler dispatches `transit` again before the enter
/// event completes, so the sent notifications run depth-first while the
/// handled notifications unwind.
pub open spec fn notes_trans_s1_s2() -> Seq<Notification> {
    seq![
        sent_note(exit_name(TransitionState::S1)),
        handled_note(exit_name(TransitionState::S1)),
        trans_note(
            2,
            TransitionKind::Transition,
            s_name(TransitionState::S1),
            s_name(TransitionState::S2),
        ),
        sent_note(enter_name(TransitionState::S2)),
        sent_note("transit"@),
    ] + notes_transition_plain(4, TransitionState::S2, TransitionState::S3) + seq![
        handled_note("transit"@),
        handled_note(enter_name(TransitionState::S2)),
    ]
}

/// The notifications of the transition into the last state, whose enter
/// handler chains a change-state back to the first.
pub open spec fn notes_trans_s3_s4() -> Seq<Notification> {
    seq![
        sent_note(exit_name(TransitionState::S3)),
        handled_note(exit_name(TransitionState::S3)),
        trans_note(
            7,
            TransitionKind::Transition,
            s_name(TransitionState::S3),
            s_name(TransitionState::S4),
        ),
        sent_note(enter_name(TransitionState::S4)),
        sent_note("change"@),
    ] + notes_change_state(9, TransitionState::S4, TransitionState::S0) + seq![
        handled_note("change"@),
        handled_note(enter_name(TransitionState::S4)),
    ]
}

/// The full notification sequence of dispatching `transit` in a state.
pub open spec fn notes_transit(s: TransitionState) -> Seq<Notification> {
    seq![sent_note("transit"@)] + match s {
        TransitionState::S0 => notes_transition_plain(0, TransitionState::S0, TransitionState::S1),
        TransitionState::S1 => notes_trans_s1_s2(),
        TransitionState::S2 => notes_transition_plain(4, TransitionState::S2, TransitionState::S3),
        TransitionState::S3 => notes_trans_s3_s4(),
        TransitionState::S4 => Seq::empty(),
    } + seq![handled_note("transit"@)]
}

/// The state reached by dispatching `transit`, after all chained work.
pub open spec fn transit_target(s: TransitionState) -> TransitionState {
    match s {
        TransitionState::S0 => TransitionState::S1,
        TransitionState::S1 => TransitionState::S3,
        TransitionState::S2 => TransitionState::S3,
        TransitionState::S3 => TransitionState::S0,
        TransitionState::S4 => TransitionState::S4,
    }
}

/// The states whose enter handlers run while `transit` is handled.
pub open spec fn enters_of_transit(s: TransitionState) -> Seq<Seq<char>> {
    match s {
        TransitionState::S0 => seq!["S1"@],
        TransitionState::S1 => seq!["S2"@, "S3"@],
        TransitionState::S2 => seq!["S3"@],
        TransitionState::S3 => seq!["S4"@],
        TransitionState::S4 => Seq::empty(),
    }
}

/// The states whose exit handlers run while `transit` is handled.
pub open spec fn exits_of_transit(s: TransitionState) -> Seq<Seq<char>> {
    match s {
        TransitionState::S0 => seq!["S0"@],
        TransitionState::S1 => seq!["S1"@, "S2"@],
        TransitionState::S2 => seq!["S2"@],
        TransitionState::S3 => seq!["S3"@],
        TransitionState::S4 => Seq::empty(),
    }
}

/// The hook labels recorded while `transit` is handled.
pub open spec fn hooks_of_transit(s: TransitionState) -> Seq<Seq<char>> {
    match s {
        TransitionState::S0 => seq![
            hook_label(TransitionState::S0, TransitionState::S1, false),
        ],
        TransitionState::S1 => seq![
            hook_label(TransitionState::S1, TransitionState::S2, false),
            hook_label(TransitionState::S2, TransitionState::S3, false),
        ],
        TransitionState::S2 => seq![
            hook_label(TransitionState::S2, TransitionState::S3, false),
        ],
        TransitionState::S3 => seq![
            hook_label(TransitionState::S3, TransitionState::S4, false),
            hook_label(TransitionState::S4, TransitionState::S0, true),
        ],
        TransitionState::S4 => Seq::empty(),
    }
}

/// The state reached by dispatching `change`.
pub open spec fn change_target(s: TransitionState) -> TransitionState {
    match s {
        TransitionState::S0 => TransitionState::S1,
        TransitionState::S1 => TransitionState::S2,
        TransitionState::S2 => TransitionState::S3,
        TransitionState::S3 => TransitionState::S4,
        TransitionState::S4 => TransitionState::S0,
    }
}

/// The stable id of the change-state out of a state.
pub open spec fn change_id(s: TransitionState) -> int {
    match s {
        TransitionState::S0 => 1,
        TransitionState::S1 => 3,
        TransitionState::S2 => 6,
        TransitionState::S3 => 8,
        TransitionState::S4 => 9,
    }
}

/// The full notification sequence of dispatching `change` in a state.
pub open spec fn notes_change(s: TransitionState) -> Seq<Notification> {
    seq![sent_note("change"@)] + notes_change_state(change_id(s), s, change_target(s)) + seq![
        handled_note("change"@),
    ]
}

/// The static shape of this machine type: its states, its events
/// including the enter and exit events of every state, its transition
/// table with the stable ids the dispatch logic fires, and its public
/// interface.
pub fn machine_info() -> (r: MachineInfo)
    ensures
        r.name@ == "Transition"@,
        r.states@.len() == 5,
        r.states@[0].name@ == "S0"@,
        r.states@[1].name@ == "S1"@,
        r.states@[2].name@ == "S2"@,
        r.states@[3].name@ == "S3"@,
        r.states@[4].name@ == "S4"@,
        r.events@.len() == 12,
        r.events@[0].name@ == "transit"@,
        r.events@[1].name@ == "change"@,
        r.events@[2].name@ == "S0:>"@,
        r.events@[3].name@ == "S1:>"@,
        r.events@[4].name@ == "S2:>"@,
        r.events@[5].name@ == "S3:>"@,
        r.events@[6].name@ == "S4:>"@,
        r.events@[7].name@ == "S0:<"@,
        r.events@[8].name@ == "S1:<"@,
        r.events@[9].name@ == "S2:<"@,
        r.events@[10].name@ == "S3:<"@,
        r.events@[11].name@ == "S4:<"@,
        r.transitions@.len() == 9,
        transition_entry(r.transitions@[0], 0, TransitionKind::Transition, "transit"@, "S0"@, "S1"@),
        transition_entry(r.transitions@[1], 1, TransitionKind::ChangeState, "change"@, "S0"@, "S1"@),
        transition_entry(r.transitions@[2], 2, TransitionKind::Transition, "transit"@, "S1"@, "S2"@),
        transition_entry(r.transitions@[3], 3, TransitionKind::ChangeState, "change"@, "S1"@, "S2"@),
        transition_entry(r.transitions@[4], 4, TransitionKind::Transition, "transit"@, "S2"@, "S3"@),
        transition_entry(r.transitions@[5], 6, TransitionKind::ChangeState, "change"@, "S2"@, "S3"@),
        transition_entry(r.transitions@[6], 7, TransitionKind::Transition, "transit"@, "S3"@, "S4"@),
        transition_entry(r.transitions@[7], 8, TransitionKind::ChangeState, "change"@, "S3"@, "S4"@),
        transition_entry(r.transitions@[8], 9, TransitionKind::ChangeState, "change"@, "S4"@, "S0"@),
        r.interface@.len() == 2,
        r.interface@[0].name@ == "transit"@,
        r.interface@[1].name@ == "change"@,
{
    let mut states: Vec<StateInfo> = Vec::new();
    states.push(plain_state_info("S0"));
    states.push(plain_state_info("S1"));
    states.push(plain_state_info("S2"));
    states.push(plain_state_info("S3"));
    states.push(plain_state_info("S4"));
    let mut events: Vec<MethodInfo> = Vec::new();
    events.push(plain_method_info("transit"));
    events.push(plain_method_info("change"));
    events.push(plain_method_info("S0:>"));
    events.push(plain_method_info("S1:>"));
    events.push(plain_method_info("S2:>"));
    events.push(plain_method_info("S3:>"));
    events.push(plain_method_info("S4:>"));
    events.push(plain_method_info("S0:<"));
    events.push(plain_method_info("S1:<"));
    events.push(plain_method_info("S2:<"));
    events.push(plain_method_info("S3:<"));
    events.push(plain_method_info("S4:<"));
    let mut transitions: Vec<TransitionInfo> = Vec::new();
    transitions.push(plain_transition_info(0, TransitionKind::Transition, "transit", "S0", "S1"));
    transitions.push(plain_transition_info(1, TransitionKind::ChangeState, "change", "S0", "S1"));
    transitions.push(plain_transition_info(2, TransitionKind::Transition, "transit", "S1", "S2"));
    transitions.push(plain_transition_info(3, TransitionKind::ChangeState, "change", "S1", "S2"));
    transitions.push(plain_transition_info(4, TransitionKind::Transition, "transit", "S2", "S3"));
    transitions.push(plain_transition_info(6, TransitionKind::ChangeState, "change", "S2", "S3"));
    transitions.push(plain_transition_info(7, TransitionKind::Transition, "transit", "S3", "S4"));
    transitions.push(plain_transition_info(8, TransitionKind::ChangeState, "change", "S3", "S4"));
    transitions.push(plain_transition_info(9, TransitionKind::ChangeState, "change", "S4", "S0"));
    let mut interface: Vec<MethodInfo> = Vec::new();
    interface.push(plain_method_info("transit"));
    interface.push(plain_method_info("change"));
    MachineInfo { name: "Transition".to_owned(), states, events, transitions, interface }
}

/// The transition model of a standard transition between two states.
pub open spec fn step_trans_model(id: int, from: TransitionState, to: TransitionState) ->
    TransModel {
    TransModel {
        id,
        kind: TransitionKind::Transition,
        old: plain_state(s_name(from)),
        new: plain_state(s_name(to)),
    }
}

/// The transition model of a change-state between two states.
pub open spec fn cs_trans_model(id: int, from: TransitionState, to: TransitionState) ->
    TransModel {
    TransModel {
        id,
        kind: TransitionKind::ChangeState,
        old: plain_state(s_name(from)),
        new: plain_state(s_name(to)),
    }
}

/// Replaying a change-state records its one transition and no event.
proof fn lemma_replay_of_change_state(
    ehist: Seq<EventModel>,
    ecap: Option<usize>,
    thist: Seq<TransModel>,
    tcap: Option<usize>,
    id: int,
    from: TransitionState,
    to: TransitionState,
)
    ensures
        replay_events(ehist, ecap, notes_change_state(id, from, to)) == ehist,
        replay_transitions(thist, tcap, notes_change_state(id, from, to)) == evict_push(
            thist,
            tcap,
            cs_trans_model(id, from, to),
        ),
{
    lemma_replay_events_single(
        ehist,
        ecap,
        trans_note(id, TransitionKind::ChangeState, s_name(from), s_name(to)),
    );
    lemma_replay_transitions_single(
        thist,
        tcap,
        trans_note(id, TransitionKind::ChangeState, s_name(from), s_name(to)),
    );
}

/// Replaying a plain standard transition records its exit and enter
/// events and its one transition.
proof fn lemma_replay_of_transition_plain(
    ehist: Seq<EventModel>,
    ecap: Option<usize>,
    thist: Seq<TransModel>,
    tcap: Option<usize>,
    id: int,
    from: TransitionState,
    to: TransitionState,
)
    ensures
        replay_events(ehist, ecap, notes_transition_plain(id, from, to)) == evict_push(
            evict_push(ehist, ecap, plain_event(exit_name(from))),
            ecap,
            plain_event(enter_name(to)),
        ),
        replay_transitions(thist, tcap, notes_transition_plain(id, from, to)) == evict_push(
            thist,
            tcap,
            step_trans_model(id, from, to),
        ),
{
    reveal_with_fuel(replay_events, 7);
    reveal_with_fuel(replay_transitions, 7);
    let n = notes_transition_plain(id, from, to);
    assert(n.drop_first() =~= n.skip(1));
    assert(n.skip(1).drop_first() =~= n.skip(2));
    assert(n.skip(2).drop_first() =~= n.skip(3));
    assert(n.skip(3).drop_first() =~= n.skip(4));
    assert(n.skip(4).drop_first() =~= Seq::<Notification>::empty());
}

/// Replaying the transition into the second state peels off its exit
/// event, its transition, the nested `transit` dispatch, and its enter
/// event.
proof fn lemma_replay_of_trans_s1_s2(
    ehist: Seq<EventModel>,
    ecap: Option<usize>,
    thist: Seq<TransModel>,
    tcap: Option<usize>,
)
    ensures
        replay_events(ehist, ecap, notes_trans_s1_s2()) == evict_push(
            evict_push(
                replay_events(
                    evict_push(ehist, ecap, plain_event(exit_name(TransitionState::S1))),
                    ecap,
                    notes_transition_plain(4, TransitionState::S2, TransitionState::S3),
                ),
                ecap,
                plain_event("transit"@),
            ),
            ecap,
            plain_event(enter_name(TransitionState::S2)),
        ),
        replay_transitions(thist, tcap, notes_trans_s1_s2()) == replay_transitions(
            evict_push(thist, tcap, step_trans_model(2, TransitionState::S1,
                TransitionState::S2)),
            tcap,
            notes_transition_plain(4, TransitionState::S2, TransitionState::S3),
        ),
{
    reveal_with_fuel(replay_events, 7);
    reveal_with_fuel(replay_transitions, 7);
    let prefix = seq![
        sent_note(exit_name(TransitionState::S1)),
        handled_note(exit_name(TransitionState::S1)),
        trans_note(
            2,
            TransitionKind::Transition,
            s_name(TransitionState::S1),
            s_name(TransitionState::S2),
        ),
        sent_note(enter_name(TransitionState::S2)),
        sent_note("transit"@),
    ];
    let inner = notes_transition_plain(4, TransitionState::S2, TransitionState::S3);
    let suffix = seq![
        handled_note("transit"@),
        handled_note(enter_name(TransitionState::S2)),
    ];
    assert(notes_trans_s1_s2() == prefix + inner + suffix);
    lemma_replay_events_over_add(ehist, ecap, prefix, inner);
    lemma_replay_events_over_add(ehist, ecap, prefix + inner, suffix);
    lemma_replay_transitions_over_add(thist, tcap, prefix, inner);
    lemma_replay_transitions_over_add(thist, tcap, prefix + inner, suffix);
    assert(prefix.drop_first() =~= prefix.skip(1));
    assert(prefix.skip(1).drop_first() =~= prefix.skip(2));
    assert(prefix.skip(2).drop_first() =~= prefix.skip(3));
    assert(prefix.skip(3).drop_first() =~= prefix.skip(4));
    assert(prefix.skip(4).drop_first() =~= Seq::<Notification>::empty());
    let e1 = evict_push(ehist, ecap, plain_event(exit_name(TransitionState::S1)));
    assert(replay_events(ehist, ecap, prefix) == e1);
    let t1 = evict_push(thist, tcap, step_trans_model(2, TransitionState::S1,
        TransitionState::S2));
    assert(replay_transitions(thist, tcap, prefix) == t1);
    let e2 = replay_events(e1, ecap, inner);
    let t2 = replay_transitions(t1, tcap, inner);
    assert(suffix.drop_first() =~= seq![handled_note(enter_name(TransitionState::S2))]);
    assert(suffix.drop_first().drop_first() =~= Seq::<Notification>::empty());
    assert(replay_events(e2, ecap, suffix) == evict_push(
        evict_push(e2, ecap, plain_event("transit"@)),
        ecap,
        plain_event(enter_name(TransitionState::S2)),
    ));
    assert(replay_transitions(t2, tcap, suffix) == t2);
}

/// Replaying the transition into the last state peels off its exit
/// event, its transition, the nested `change` dispatch, and its enter
/// event.
proof fn lemma_replay_of_trans_s3_s4(
    ehist: Seq<EventModel>,
    ecap: Option<usize>,
    thist: Seq<TransModel>,
    tcap: Option<usize>,
)
    ensures
        replay_events(ehist, ecap, notes_trans_s3_s4()) == evict_push(
            evict_push(
                evict_push(ehist, ecap, plain_event(exit_name(TransitionState::S3))),
                ecap,
                plain_event("change"@),
            ),
            ecap,
            plain_event(enter_name(TransitionState::S4)),
        ),
        replay_transitions(thist, tcap, notes_trans_s3_s4()) == evict_push(
            evict_push(thist, tcap, step_trans_model(7, TransitionState::S3,
                TransitionState::S4)),
            tcap,
            cs_trans_model(9, TransitionState::S4, TransitionState::S0),
        ),
{
    reveal_with_fuel(replay_events, 7);
    reveal_with_fuel(replay_transitions, 7);
    let prefix = seq![
        sent_note(exit_name(TransitionState::S3)),
        handled_note(exit_name(TransitionState::S3)),
        trans_note(
            7,
            TransitionKind::Transition,
            s_name(TransitionState::S3),
            s_name(TransitionState::S4),
        ),
        sent_note(enter_name(TransitionState::S4)),
        sent_note("change"@),
    ];
    let inner = notes_change_state(9, TransitionState::S4, TransitionState::S0);
    let suffix = seq![
        handled_note("change"@),
        handled_note(enter_name(TransitionState::S4)),
    ];
    assert(notes_trans_s3_s4() == prefix + inner + suffix);
    lemma_replay_events_over_add(ehist, ecap, prefix, inner);
    lemma_replay_events_over_add(ehist, ecap, prefix + inner, suffix);
    lemma_replay_transitions_over_add(thist, tcap, prefix, inner);
    lemma_replay_transitions_over_add(thist, tcap, prefix + inner, suffix);
    assert(prefix.drop_first() =~= prefix.skip(1));
    assert(prefix.skip(1).drop_first() =~= prefix.skip(2));
    assert(prefix.skip(2).drop_first() =~= prefix.skip(3));
    assert(prefix.skip(3).drop_first() =~= prefix.skip(4));
    assert(prefix.skip(4).drop_first() =~= Seq::<Notification>::empty());
    let e1 = evict_push(ehist, ecap, plain_event(exit_name(TransitionState::S3)));
    assert(replay_events(ehist, ecap, prefix) == e1);
    let t1 = evict_push(thist, tcap, step_trans_model(7, TransitionState::S3,
        TransitionState::S4));
    assert(replay_transitions(thist, tcap, prefix) == t1);
    lemma_replay_of_change_state(e1, ecap, t1, tcap, 9, TransitionState::S4,
        TransitionState::S0);
    let t2 = evict_push(t1, tcap, cs_trans_model(9, TransitionState::S4, TransitionState::S0));
    assert(suffix.drop_first() =~= seq![handled_note(enter_name(TransitionState::S4))]);
    assert(suffix.drop_first().drop_first() =~= Seq::<Notification>::empty());
    assert(replay_events(e1, ecap, suffix) == evict_push(
        evict_push(e1, ecap, plain_event("change"@)),
        ecap,
        plain_event(enter_name(TransitionState::S4)),
    ));
    assert(replay_transitions(t2, tcap, suffix) == t2);
}

/// The static transition table, in the model: the same rows, in the same
/// order, as the descriptors [`machine_info`] builds.
pub open spec fn machine_table() -> Seq<TransModel> {
    seq![
        step_trans_model(0, TransitionState::S0, TransitionState::S1),
        cs_trans_model(1, TransitionState::S0, TransitionState::S1),
        step_trans_model(2, TransitionState::S1, TransitionState::S2),
        cs_trans_model(3, TransitionState::S1, TransitionState::S2),
        step_trans_model(4, TransitionState::S2, TransitionState::S3),
        cs_trans_model(6, TransitionState::S2, TransitionState::S3),
        step_trans_model(7, TransitionState::S3, TransitionState::S4),
        cs_trans_model(8, TransitionState::S3, TransitionState::S4),
        cs_trans_model(9, TransitionState::S4, TransitionState::S0),
    ]
}

/// The transition notifications a `transit` dispatch delivers, in order.
pub open spec fn transitions_of_transit(s: TransitionState) -> Seq<TransModel> {
    replay_transitions(Seq::empty(), Option::<usize>::None, notes_transit(s))
}

/// Every transition notification a `transit` dispatch delivers matches a
/// row of the machine's static transition table: the live old and new
/// states are exactly the source and target the table declares for that
/// id and kind.
pub proof fn lemma_transit_matches_table(s: TransitionState)
    ensures
        forall|t: TransModel|
            #[trigger] transitions_of_transit(s).contains(t) ==> machine_table().contains(t),
{
    let thist = Seq::<TransModel>::empty();
    let tcap = Option::<usize>::None;
    let head = seq![sent_note("transit"@)];
    let tail = seq![handled_note("transit"@)];
    let mid = match s {
        TransitionState::S0 => notes_transition_plain(0, TransitionState::S0, TransitionState::S1),
        TransitionState::S1 => notes_trans_s1_s2(),
        TransitionState::S2 => notes_transition_plain(4, TransitionState::S2, TransitionState::S3),
        TransitionState::S3 => notes_trans_s3_s4(),
        TransitionState::S4 => Seq::empty(),
    };
    assert(notes_transit(s) == head + mid + tail);
    lemma_replay_transitions_over_add(thist, tcap, head, mid);
    lemma_replay_transitions_over_add(thist, tcap, head + mid, tail);
    lemma_replay_transitions_single(thist, tcap, sent_note("transit"@));
    lemma_replay_transitions_single(
        replay_transitions(thist, tcap, mid),
        tcap,
        handled_note("transit"@),
    );
    match s {
        TransitionState::S0 => {
            lemma_replay_of_transition_plain(
                Seq::empty(),
                Option::<usize>::None,
                thist,
                tcap,
                0,
                TransitionState::S0,
                TransitionState::S1,
            );
            assert(transitions_of_transit(s) =~= seq![
                step_trans_model(0, TransitionState::S0, TransitionState::S1),
            ]);
            assert(forall|t: TransModel|
                transitions_of_transit(s).contains(t) ==> machine_table().contains(t)) by {
                assert(machine_table()[0] == step_trans_model(
                    0,
                    TransitionState::S0,
                    TransitionState::S1,
                ));
            }
        },
        TransitionState::S1 => {
            lemma_replay_of_trans_s1_s2(Seq::empty(), Option::<usize>::None, thist, tcap);
            lemma_replay_of_transition_plain(
                Seq::empty(),
                Option::<usize>::None,
                evict_push(thist, tcap, step_trans_model(2, TransitionState::S1,
                    TransitionState::S2)),
                tcap,
                4,
                TransitionState::S2,
                TransitionState::S3,
            );
            assert(transitions_of_transit(s) =~= seq![
                step_trans_model(2, TransitionState::S1, TransitionState::S2),
                step_trans_model(4, TransitionState::S2, TransitionState::S3),
            ]);
            assert(forall|t: TransModel|
                transitions_of_transit(s).contains(t) ==> machine_table().contains(t)) by {
                assert(machine_table()[2] == step_trans_model(
                    2,
                    TransitionState::S1,
                    TransitionState::S2,
                ));
                assert(machine_table()[4] == step_trans_model(
                    4,
                    TransitionState::S2,
                    TransitionState::S3,
                ));
            }
        },
        TransitionState::S2 => {
            lemma_replay_of_transition_plain(
                Seq::empty(),
                Option::<usize>::None,
                thist,
                tcap,
                4,
                TransitionState::S2,
                TransitionState::S3,
            );
            assert(transitions_of_transit(s) =~= seq![
                step_trans_model(4, TransitionState::S2, TransitionState::S3),
            ]);
            assert(forall|t: TransModel|
                transitions_of_transit(s).contains(t) ==> machine_table().contains(t)) by {
                assert(machine_table()[4] == step_trans_model(
                    4,
                    TransitionState::S2,
                    TransitionState::S3,
                ));
            }
        },
        TransitionState::S3 => {
            lemma_replay_of_trans_s3_s4(Seq::empty(), Option::<usize>::None, thist, tcap);
            assert(transitions_of_transit(s) =~= seq![
                step_trans_model(7, TransitionState::S3, TransitionState::S4),
                cs_trans_model(9, TransitionState::S4, TransitionState::S0),
            ]);
            assert(forall|t: TransModel|
                transitions_of_transit(s).contains(t) ==> machine_table().contains(t)) by {
                assert(machine_table()[6] == step_trans_model(
                    7,
                    TransitionState::S3,
                    TransitionState::S4,
                ));
                assert(machine_table()[8] == cs_trans_model(
                    9,
                    TransitionState::S4,
                    TransitionState::S0,
                ));
            }
        },
        TransitionState::S4 => {
            assert(transitions_of_transit(s) =~= Seq::<TransModel>::empty());
        },
    }
}

/// Every transition notification a `change` dispatch delivers matches a
/// row of the machine's static transition table.
pub proof fn lemma_change_matches_table(s: TransitionState)
    ensures
        forall|t: TransModel|
            #[trigger] replay_transitions(
                Seq::empty(),
                Option::<usize>::None,
                notes_change(s),
            ).contains(t) ==> machine_table().contains(t),
{
    let thist = Seq::<TransModel>::empty();
    let tcap = Option::<usize>::None;
    let head = seq![sent_note("change"@)];
    let mid = notes_change_state(change_id(s), s, change_target(s));
    let tail = seq![handled_note("change"@)];
    assert(notes_change(s) == head + mid + tail);
    lemma_replay_transitions_over_add(thist, tcap, head, mid);
    lemma_replay_transitions_over_add(thist, tcap, head + mid, tail);
    lemma_replay_transitions_single(thist, tcap, sent_note("change"@));
    lemma_replay_of_change_state(
        Seq::empty(),
        Option::<usize>::None,
        thist,
        tcap,
        change_id(s),
        s,
        change_target(s),
    );
    lemma_replay_transitions_single(
        replay_transitions(thist, tcap, mid),
        tcap,
        handled_note("change"@),
    );
    let row = cs_trans_model(change_id(s), s, change_target(s));
    assert(replay_transitions(thist, tcap, notes_change(s)) =~= seq![row]);
    assert(forall|t: TransModel|
        replay_transitions(Seq::empty(), Option::<usize>::None, notes_change(s)).contains(t)
            ==> machine_table().contains(t)) by {
        match s {
            TransitionState::S0 => {
                assert(machine_table()[1] == row);
            },
            TransitionState::S1 => {
                assert(machine_table()[3] == row);
            },
            TransitionState::S2 => {
                assert(machine_table()[5] == row);
            },
            TransitionState::S3 => {
                assert(machine_table()[7] == row);
            },
            TransitionState::S4 => {
                assert(machine_table()[8] == row);
            },
        }
    }
}

/// A machine with a standard transition and a change-state out of every
/// state, recording each enter and exit handler run and each hook call.
pub struct Transition<EC: EventCallback, TC: TransitionCallback> {
    pub state: TransitionState,
    pub enters: Vec<String>,
    pub exits: Vec<String>,
    pub hooks: Vec<String>,
    pub current: StateInstance,
    pub monitor: EventMonitor<EC, TC>,
}

impl<EC: EventCallback, TC: TransitionCallback> Transition<EC, TC> {
    /// The live current state matches the state tag.
    pub open spec fn wf(&self) -> bool {
        self.current@ == plain_state(s_name(self.state))
    }

    /// The machine's registries and capacities are unchanged between two
    /// of its values.
    pub open spec fn same_monitor_setup(&self, other: &Self) -> bool {
        &&& self.monitor.sent_callbacks() == other.monitor.sent_callbacks()
        &&& self.monitor.handled_callbacks() == other.monitor.handled_callbacks()
        &&& self.monitor.trans_callbacks() == other.monitor.trans_callbacks()
        &&& self.monitor.event_capacity() == other.monitor.event_capacity()
        &&& self.monitor.transition_capacity() == other.monitor.transition_capacity()
    }

    /// Create the machine in its first state and dispatch the initial
    /// enter event.
    pub fn new() -> (r: Self)
        ensures
            r.state == TransitionState::S0,
            r.wf(),
            r.monitor.notifications() == seq![
                sent_note(enter_name(TransitionState::S0)),
                handled_note(enter_name(TransitionState::S0)),
            ],
            r.enters.deep_view() == seq!["S0"@],
            r.monitor.events_model() == seq![plain_event(enter_name(TransitionState::S0))],
            r.monitor.transitions_model() == Seq::<TransModel>::empty(),
            r.monitor.wf(),
            r.exits.deep_view() == Seq::<Seq<char>>::empty(),
            r.hooks.deep_view() == Seq::<Seq<char>>::empty(),
            r.monitor.sent_callbacks() == Seq::<EC>::empty(),
            r.monitor.handled_callbacks() == Seq::<EC>::empty(),
            r.monitor.trans_callbacks() == Seq::<TC>::empty(),
            r.monitor.event_capacity() == Option::<usize>::None,
            r.monitor.transition_capacity() == Option::<usize>::None,
    {
        let mut machine = Transition {
            state: TransitionState::S0,
            enters: Vec::new(),
            exits: Vec::new(),
            hooks: Vec::new(),
            current: plain_state_instance("S0"),
            monitor: EventMonitor::new(None, None),
        };
        let en = plain_event_instance("S0:>");
        machine.monitor.event_sent(&en);
        machine.enter("S0".to_owned());
        machine.monitor.event_handled(en);
        proof {
            assert(machine.enters.deep_view() =~= seq!["S0"@]);
            assert(machine.exits.deep_view() =~= Seq::<Seq<char>>::empty());
            assert(machine.hooks.deep_view() =~= Seq::<Seq<char>>::empty());
            assert(machine.monitor.notifications() =~= seq![
                sent_note(enter_name(TransitionState::S0)),
                handled_note(enter_name(TransitionState::S0)),
            ]);
            assert(machine.monitor.events_model() =~= seq![
                plain_event(enter_name(TransitionState::S0)),
            ]);
        }
        machine
    }

    /// The monitor observing this machine.
    pub fn event_monitor(&self) -> (m: &EventMonitor<EC, TC>)
        ensures
            m == &self.monitor,
    {
        &self.monitor
    }

    /// Mutable access to the monitor, to register callbacks or adjust
    /// history capacities.
    pub fn event_monitor_mut(&mut self) -> (m: &mut EventMonitor<EC, TC>)
        ensures
            *m == old(self).monitor,
            final(self).monitor == *final(m),
            final(self).state == old(self).state,
            final(self).enters == old(self).enters,
            final(self).exits == old(self).exits,
            final(self).hooks == old(self).hooks,
            final(self).current == old(self).current,
    {
        &mut self.monitor
    }

    /// A read-only reference to the live current state.
    pub fn current_state(&self) -> (r: &StateInstance)
        ensures
            r == &self.current,
    {
        &self.current
    }

    /// The machine-wide variables. This machine declares none, so the
    /// environment answers "not found" for every name.
    pub fn domain_variables(&self) -> (r: Environment)
        ensures
            r@ == Seq::<(Seq<char>, crate::environment::ValueModel)>::empty(),
    {
        Environment::empty()
    }

    /// The enter action: record that a state was entered.
    pub fn enter(&mut self, state: String)
        ensures
            final(self).enters@ == old(self).enters@.push(state),
            final(self).exits == old(self).exits,
            final(self).hooks == old(self).hooks,
            final(self).state == old(self).state,
            final(self).current == old(self).current,
            final(self).monitor == old(self).monitor,
    {
        self.enters.push(state);
    }

    /// The exit action: record that a state was exited.
    pub fn exit(&mut self, state: String)
        ensures
            final(self).exits@ == old(self).exits@.push(state),
            final(self).enters == old(self).enters,
            final(self).hooks == old(self).hooks,
            final(self).state == old(self).state,
            final(self).current == old(self).current,
            final(self).monitor == old(self).monitor,
    {
        self.exits.push(state);
    }

    /// Forget everything the actions and hooks recorded.
    pub fn clear_all(&mut self)
        ensures
            final(self).enters@ == Seq::<String>::empty(),
            final(self).exits@ == Seq::<String>::empty(),
            final(self).hooks@ == Seq::<String>::empty(),
            final(self).state == old(self).state,
            final(self).current == old(self).current,
            final(self).monitor == old(self).monitor,
    {
        self.enters = Vec::new();
        self.exits = Vec::new();
        self.hooks = Vec::new();
    }

    /// The hook run on each standard transition: record the pair of
    /// states.
    pub fn transition_hook(&mut self, old_state: TransitionState, new_state: TransitionState)
        ensures
            final(self).hooks.deep_view() == old(self).hooks.deep_view().push(
                hook_label(old_state, new_state, false),
            ),
            final(self).enters == old(self).enters,
            final(self).exits == old(self).exits,
            final(self).state == old(self).state,
            final(self).current == old(self).current,
            final(self).monitor == old(self).monitor,
    {
        let mut label = state_name(old_state).to_owned();
        label.append("->");
        label.append(state_name(new_state));
        let ghost before = self.hooks.deep_view();
        self.hooks.push(label);
        proof {
            assert(self.hooks.deep_view() =~= before.push(
                hook_label(old_state, new_state, false),
            ));
        }
    }

    /// The hook run on each change-state: record the pair of states.
    pub fn change_state_hook(&mut self, old_state: TransitionState, new_state: TransitionState)
        ensures
            final(self).hooks.deep_view() == old(self).hooks.deep_view().push(
                hook_label(old_state, new_state, true),
            ),
            final(self).enters == old(self).enters,
            final(self).exits == old(self).exits,
            final(self).state == old(self).state,
            final(self).current == old(self).current,
            final(self).monitor == old(self).monitor,
    {
        let mut label = state_name(old_state).to_owned();
        label.append("->>");
        label.append(state_name(new_state));
        let ghost before = self.hooks.deep_view();
        self.hooks.push(label);
        proof {
            assert(self.hooks.deep_view() =~= before.push(
                hook_label(old_state, new_state, true),
            ));
        }
    }

    /// Perform one change-state: swap the current state, run the hook,
    /// and notify the monitor. No exit or enter events are sent.
    fn do_change_state(&mut self, id: u64, from: TransitionState, to: TransitionState)
        requires
            old(self).state == from,
            old(self).wf(),
        ensures
            final(self).state == to,
            final(self).wf(),
            final(self).monitor.notifications() == old(self).monitor.notifications()
                + notes_change_state(id as int, from, to),
            final(self).hooks.deep_view() == old(self).hooks.deep_view().push(
                hook_label(from, to, true),
            ),
            final(self).enters == old(self).enters,
            final(self).exits == old(self).exits,
            final(self).monitor.events() == old(self).monitor.events(),
            final(self).monitor.transitions_model() == evict_push(
                old(self).monitor.transitions_model(),
                old(self).monitor.transition_capacity(),
                cs_trans_model(id as int, from, to),
            ),
            final(self).same_monitor_setup(old(self)),
            old(self).monitor.wf() ==> final(self).monitor.wf(),
    {
        let old_inst = self.current.clone();
        let new_inst = plain_state_instance(state_name(to));
        self.current = new_inst.clone();
        self.state = to;
        self.change_state_hook(from, to);
        let info = plain_transition_info(
            id,
            TransitionKind::ChangeState,
            "change",
            state_name(from),
            state_name(to),
        );
        let t = TransitionInstance::change_state(info, old_inst, new_inst);
        self.monitor.transition_occurred(t);
        proof {
            assert(self.monitor.notifications() =~= old(self).monitor.notifications()
                + notes_change_state(id as int, from, to));
        }
    }

    /// Perform one standard transition whose target's enter handler
    /// dispatches nothing further: exit event, swap, hook, transition
    /// notification, enter event.
    fn do_transition_plain(&mut self, id: u64, from: TransitionState, to: TransitionState)
        requires
            old(self).state == from,
            old(self).wf(),
        ensures
            final(self).state == to,
            final(self).wf(),
            final(self).monitor.notifications() == old(self).monitor.notifications()
                + notes_transition_plain(id as int, from, to),
            final(self).enters.deep_view() == old(self).enters.deep_view().push(s_name(to)),
            final(self).exits.deep_view() == old(self).exits.deep_view().push(s_name(from)),
            final(self).hooks.deep_view() == old(self).hooks.deep_view().push(
                hook_label(from, to, false),
            ),
            final(self).monitor.events_model() == replay_events(
                old(self).monitor.events_model(),
                old(self).monitor.event_capacity(),
                notes_transition_plain(id as int, from, to),
            ),
            final(self).monitor.transitions_model() == replay_transitions(
                old(self).monitor.transitions_model(),
                old(self).monitor.transition_capacity(),
                notes_transition_plain(id as int, from, to),
            ),
            final(self).same_monitor_setup(old(self)),
            old(self).monitor.wf() ==> final(self).monitor.wf(),
    {
        let from_name = state_name(from);
        let to_name = state_name(to);
        let exit_event = plain_event_instance(state_exit_event(from));
        self.monitor.event_sent(&exit_event);
        self.exit(from_name.to_owned());
        self.monitor.event_handled(exit_event);
        let old_inst = self.current.clone();
        let new_inst = plain_state_instance(to_name);
        self.current = new_inst.clone();
        self.state = to;
        self.transition_hook(from, to);
        let info = plain_transition_info(
            id,
            TransitionKind::Transition,
            "transit",
            from_name,
            to_name,
        );
        let t = TransitionInstance::new(
            info,
            old_inst,
            new_inst,
            Environment::empty(),
            Environment::empty(),
        );
        self.monitor.transition_occurred(t);
        let enter_event = plain_event_instance(state_enter_event(to));
        self.monitor.event_sent(&enter_event);
        self.enter(to_name.to_owned());
        self.monitor.event_handled(enter_event);
        proof {
            assert(self.monitor.notifications() =~= old(self).monitor.notifications()
                + notes_transition_plain(id as int, from, to));
            assert(self.enters.deep_view() =~= old(self).enters.deep_view().push(s_name(to)));
            assert(self.exits.deep_view() =~= old(self).exits.deep_view().push(s_name(from)));
            lemma_replay_of_transition_plain(
                old(self).monitor.events_model(),
                old(self).monitor.event_capacity(),
                old(self).monitor.transitions_model(),
                old(self).monitor.transition_capacity(),
                id as int,
                from,
                to,
            );
        }
    }

    /// The transition into the second state: its enter handler dispatches
    /// `transit` again, chaining a further transition before the enter
    /// event completes.
    fn trans_s1_s2(&mut self)
        requires
            old(self).state == TransitionState::S1,
            old(self).wf(),
        ensures
            final(self).state == TransitionState::S3,
            final(self).wf(),
            final(self).monitor.notifications() == old(self).monitor.notifications()
                + notes_trans_s1_s2(),
            final(self).enters.deep_view() == old(self).enters.deep_view() + seq!["S2"@, "S3"@],
            final(self).exits.deep_view() == old(self).exits.deep_view() + seq!["S1"@, "S2"@],
            final(self).hooks.deep_view() == old(self).hooks.deep_view() + seq![
                hook_label(TransitionState::S1, TransitionState::S2, false),
                hook_label(TransitionState::S2, TransitionState::S3, false),
            ],
            final(self).monitor.events_model() == replay_events(
                old(self).monitor.events_model(),
                old(self).monitor.event_capacity(),
                notes_trans_s1_s2(),
            ),
            final(self).monitor.transitions_model() == replay_transitions(
                old(self).monitor.transitions_model(),
                old(self).monitor.transition_capacity(),
                notes_trans_s1_s2(),
            ),
            final(self).same_monitor_setup(old(self)),
            old(self).monitor.wf() ==> final(self).monitor.wf(),
    {
        let exit_event = plain_event_instance("S1:<");
        self.monitor.event_sent(&exit_event);
        self.exit("S1".to_owned());
        self.monitor.event_handled(exit_event);
        let old_inst = self.current.clone();
        let new_inst = plain_state_instance("S2");
        self.current = new_inst.clone();
        self.state = TransitionState::S2;
        self.transition_hook(TransitionState::S1, TransitionState::S2);
        let info = plain_transition_info(2, TransitionKind::Transition, "transit", "S1", "S2");
        let t = TransitionInstance::new(
            info,
            old_inst,
            new_inst,
            Environment::empty(),
            Environment::empty(),
        );
        self.monitor.transition_occurred(t);
        let enter_event = plain_event_instance("S2:>");
        self.monitor.event_sent(&enter_event);
        self.enter("S2".to_owned());
        let chained = plain_event_instance("transit");
        self.monitor.event_sent(&chained);
        self.do_transition_plain(4, TransitionState::S2, TransitionState::S3);
        self.monitor.event_handled(chained);
        self.monitor.event_handled(enter_event);
        proof {
            assert(self.monitor.notifications() =~= old(self).monitor.notifications()
                + notes_trans_s1_s2());
            assert(self.enters.deep_view() =~= old(self).enters.deep_view() + seq![
                "S2"@,
                "S3"@,
            ]);
            assert(self.exits.deep_view() =~= old(self).exits.deep_view() + seq!["S1"@, "S2"@]);
            assert(self.hooks.deep_view() =~= old(self).hooks.deep_view() + seq![
                hook_label(TransitionState::S1, TransitionState::S2, false),
                hook_label(TransitionState::S2, TransitionState::S3, false),
            ]);
            lemma_replay_of_trans_s1_s2(
                old(self).monitor.events_model(),
                old(self).monitor.event_capacity(),
                old(self).monitor.transitions_model(),
                old(self).monitor.transition_capacity(),
            );
        }
    }

    /// The transition into the last state: its enter handler chains a
    /// change-state back to the first state.
    fn trans_s3_s4(&mut self)
        requires
            old(self).state == TransitionState::S3,
            old(self).wf(),
        ensures
            final(self).state == TransitionState::S0,
            final(self).wf(),
            final(self).monitor.notifications() == old(self).monitor.notifications()
                + notes_trans_s3_s4(),
            final(self).enters.deep_view() == old(self).enters.deep_view().push(s_name(
                TransitionState::S4,
            )),
            final(self).exits.deep_view() == old(self).exits.deep_view().push(s_name(
                TransitionState::S3,
            )),
            final(self).hooks.deep_view() == old(self).hooks.deep_view() + seq![
                hook_label(TransitionState::S3, TransitionState::S4, false),
                hook_label(TransitionState::S4, TransitionState::S0, true),
            ],
            final(self).monitor.events_model() == replay_events(
                old(self).monitor.events_model(),
                old(self).monitor.event_capacity(),
                notes_trans_s3_s4(),
            ),
            final(self).monitor.transitions_model() == replay_transitions(
                old(self).monitor.transitions_model(),
                old(self).monitor.transition_capacity(),
                notes_trans_s3_s4(),
            ),
            final(self).same_monitor_setup(old(self)),
            old(self).monitor.wf() ==> final(self).monitor.wf(),
    {
        let exit_event = plain_event_instance("S3:<");
        self.monitor.event_sent(&exit_event);
        self.exit("S3".to_owned());
        self.monitor.event_handled(exit_event);
        let old_inst = self.current.clone();
        let new_inst = plain_state_instance("S4");
        self.current = new_inst.clone();
        self.state = TransitionState::S4;
        self.transition_hook(TransitionState::S3, TransitionState::S4);
        let info = plain_transition_info(7, TransitionKind::Transition, "transit", "S3", "S4");
        let t = TransitionInstance::new(
            info,
            old_inst,
            new_inst,
            Environment::empty(),
            Environment::empty(),
        );
        self.monitor.transition_occurred(t);
        let enter_event = plain_event_instance("S4:>");
        self.monitor.event_sent(&enter_event);
        self.enter("S4".to_owned());
        let chained = plain_event_instance("change");
        self.monitor.event_sent(&chained);
        self.do_change_state(9, TransitionState::S4, TransitionState::S0);
        self.monitor.event_handled(chained);
        self.monitor.event_handled(enter_event);
        proof {
            assert(self.monitor.notifications() =~= old(self).monitor.notifications()
                + notes_trans_s3_s4());
            assert(self.enters.deep_view() =~= old(self).enters.deep_view().push(s_name(
                TransitionState::S4,
            )));
            assert(self.exits.deep_view() =~= old(self).exits.deep_view().push(s_name(
                TransitionState::S3,
            )));
            assert(self.hooks.deep_view() =~= old(self).hooks.deep_view() + seq![
                hook_label(TransitionState::S3, TransitionState::S4, false),
                hook_label(TransitionState::S4, TransitionState::S0, true),
            ]);
            lemma_replay_of_trans_s3_s4(
                old(self).monitor.events_model(),
                old(self).monitor.event_capacity(),
                old(self).monitor.transitions_model(),
                old(self).monitor.transition_capacity(),
            );
        }
    }

    /// Dispatch the `transit` event: one sent and one handled
    /// notification bracket all chained work, with sent notifications in
    /// causal, depth-first order and handled notifications in
    /// stack-unwind order. The last state does not handle the event:
    /// both notifications still fire, but nothing else happens.
    pub fn transit(&mut self)
        requires
            old(self).wf(),
        ensures
            final(self).state == transit_target(old(self).state),
            final(self).wf(),
            final(self).monitor.notifications() == old(self).monitor.notifications()
                + notes_transit(old(self).state),
            final(self).enters.deep_view() == old(self).enters.deep_view() + enters_of_transit(
                old(self).state,
            ),
            final(self).exits.deep_view() == old(self).exits.deep_view() + exits_of_transit(
                old(self).state,
            ),
            final(self).hooks.deep_view() == old(self).hooks.deep_view() + hooks_of_transit(
                old(self).state,
            ),
            final(self).monitor.events_model() == replay_events(
                old(self).monitor.events_model(),
                old(self).monitor.event_capacity(),
                notes_transit(old(self).state),
            ),
            final(self).monitor.transitions_model() == replay_transitions(
                old(self).monitor.transitions_model(),
                old(self).monitor.transition_capacity(),
                notes_transit(old(self).state),
            ),
            final(self).same_monitor_setup(old(self)),
            old(self).monitor.wf() ==> final(self).monitor.wf(),
    {
        let event = plain_event_instance("transit");
        self.monitor.event_sent(&event);
        match self.state {
            TransitionState::S0 => self.do_transition_plain(
                0,
                TransitionState::S0,
                TransitionState::S1,
            ),
            TransitionState::S1 => self.trans_s1_s2(),
            TransitionState::S2 => self.do_transition_plain(
                4,
                TransitionState::S2,
                TransitionState::S3,
            ),
            TransitionState::S3 => self.trans_s3_s4(),
            TransitionState::S4 => {},
        }
        self.monitor.event_handled(event);
        proof {
            assert(self.monitor.notifications() =~= old(self).monitor.notifications()
                + notes_transit(old(self).state));
            assert(self.enters.deep_view() =~= old(self).enters.deep_view() + enters_of_transit(
                old(self).state,
            ));
            assert(self.exits.deep_view() =~= old(self).exits.deep_view() + exits_of_transit(
                old(self).state,
            ));
            assert(self.hooks.deep_view() =~= old(self).hooks.deep_view() + hooks_of_transit(
                old(self).state,
            ));
            let ghost ehist = old(self).monitor.events_model();
            let ghost ecap = old(self).monitor.event_capacity();
            let ghost thist = old(self).monitor.transitions_model();
            let ghost tcap = old(self).monitor.transition_capacity();
            let ghost head = seq![sent_note("transit"@)];
            let ghost tail = seq![handled_note("transit"@)];
            let ghost mid = match old(self).state {
                TransitionState::S0 => notes_transition_plain(0, TransitionState::S0,
                    TransitionState::S1),
                TransitionState::S1 => notes_trans_s1_s2(),
                TransitionState::S2 => notes_transition_plain(4, TransitionState::S2,
                    TransitionState::S3),
                TransitionState::S3 => notes_trans_s3_s4(),
                TransitionState::S4 => Seq::empty(),
            };
            assert(notes_transit(old(self).state) == head + mid + tail);
            lemma_replay_events_over_add(ehist, ecap, head, mid);
            lemma_replay_events_over_add(ehist, ecap, head + mid, tail);
            lemma_replay_events_single(ehist, ecap, sent_note("transit"@));
            lemma_replay_events_single(
                replay_events(ehist, ecap, mid),
                ecap,
                handled_note("transit"@),
            );
            lemma_replay_transitions_over_add(thist, tcap, head, mid);
            lemma_replay_transitions_over_add(thist, tcap, head + mid, tail);
            lemma_replay_transitions_single(thist, tcap, sent_note("transit"@));
            lemma_replay_transitions_single(
                replay_transitions(thist, tcap, mid),
                tcap,
                handled_note("transit"@),
            );
        }
    }

    /// Dispatch the `change` event: a change-state to the next state with
    /// no exit or enter events, bracketed by one sent and one handled
    /// notification.
    pub fn change(&mut self)
        requires
            old(self).wf(),
        ensures
            final(self).state == change_target(old(self).state),
            final(self).wf(),
            final(self).monitor.notifications() == old(self).monitor.notifications()
                + notes_change(old(self).state),
            final(self).enters == old(self).enters,
            final(self).exits == old(self).exits,
            final(self).hooks.deep_view() == old(self).hooks.deep_view().push(
                hook_label(old(self).state, change_target(old(self).state), true),
            ),
            final(self).monitor.events_model() == evict_push(
                old(self).monitor.events_model(),
                old(self).monitor.event_capacity(),
                plain_event("change"@),
            ),
            final(self).monitor.transitions_model() == evict_push(
                old(self).monitor.transitions_model(),
                old(self).monitor.transition_capacity(),
                cs_trans_model(change_id(old(self).state), old(self).state, change_target(
                    old(self).state,
                )),
            ),
            final(self).same_monitor_setup(old(self)),
            old(self).monitor.wf() ==> final(self).monitor.wf(),
    {
        let event = plain_event_instance("change");
        self.monitor.event_sent(&event);
        match self.state {
            TransitionState::S0 => self.do_change_state(
                1,
                TransitionState::S0,
                TransitionState::S1,
            ),
            TransitionState::S1 => self.do_change_state(
                3,
                TransitionState::S1,
                TransitionState::S2,
            ),
            TransitionState::S2 => self.do_change_state(
                6,
                TransitionState::S2,
                TransitionState::S3,
            ),
            TransitionState::S3 => self.do_change_state(
                8,
                TransitionState::S3,
                TransitionState::S4,
            ),
            TransitionState::S4 => self.do_change_state(
                9,
                TransitionState::S4,
                TransitionState::S0,
            ),
        }
        self.monitor.event_handled(event);
        proof {
            assert(self.monitor.notifications() =~= old(self).monitor.notifications()
                + notes_change(old(self).state));
        }
    }
}

} // verus!
