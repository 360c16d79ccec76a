//! A three-state machine exercising the state stack: a running machine
//! can push a duplicate of its current state and later pop the stack to
//! restore the saved state, either through the full transition protocol
//! (exit and enter events fire) or through a change-state (neither
//! fires). The restored state instance reuses the environments bound when
//! it was pushed; its enter event is redispatched against them rather
//! than constructed afresh. Popping an empty stack is a no-op: the event
//! is still sent and handled, but nothing changes.

use vstd::prelude::*;
use crate::environment::Environment;
use crate::event::{EventCallback, EventMonitor, Notification, TransitionCallback, evict_push,
    replay_events, replay_transitions};
use crate::info::{MachineInfo, MethodInfo, StateInfo, TransitionInfo, TransitionKind};
use crate::live::{EventModel, StateInstance, TransModel, TransitionInstance};
use crate::machines::{
    plain_event, plain_event_instance, plain_method_info, plain_state, plain_state_info,
    plain_state_instance, plain_transition_info, handled_note, pop_transition_entry, sent_note,
    trans_note, transition_entry,
};

verus! {

/// The states of the machine.
#[derive(Clone, Copy, Debug, PartialEq, Eq, Structural)]
pub enum StateStackState {
    A,
    B,
    C,
}

/// The printable name of a state, in the model.
pub open spec fn s_name(s: StateStackState) -> Seq<char> {
    match s {
        StateStackState::A => "A"@,
        StateStackState::B => "B"@,
        StateStackState::C => "C"@,
    }
}

/// The name of the enter event delivered to a state, which its handler
/// also writes to the tape.
pub open spec fn enter_name(s: StateStackState) -> Seq<char> {
    match s {
        StateStackState::A => "A:>"@,
        StateStackState::B => "B:>"@,
        StateStackState::C => "C:>"@,
    }
}

/// The name of the exit event delivered to a state, which its handler
/// also writes to the tape.
pub open spec fn exit_name(s: StateStackState) -> Seq<char> {
    match s {
        StateStackState::A => "A:<"@,
        StateStackState::B => "B:<"@,
        StateStackState::C => "C:<"@,
    }
}

/// The name of the interface event that transitions into a state.
pub open spec fn to_event_name(s: StateStackState) -> Seq<char> {
    match s {
        StateStackState::A => "to_a"@,
        StateStackState::B => "to_b"@,
        StateStackState::C => "to_c"@,
    }
}

/// A state's position in the declaration order.
pub open spec fn s_index(s: StateStackState) -> int {
    match s {
        StateStackState::A => 0,
        StateStackState::B => 1,
        StateStackState::C => 2,
    }
}

/// The stable id of the transition from one state into another.
pub open spec fn trans_id(from: StateStackState, to: StateStackState) -> int {
    3 * s_index(from) + s_index(to)
}

/// The stable id of the stack-pop transition out of a state.
pub open spec fn pop_id(from: StateStackState) -> int {
    9 + s_index(from)
}

/// The stable id of the stack-pop change-state out of a state.
pub open spec fn pop_change_id(from: StateStackState) -> int {
    12 + s_index(from)
}

/// The printable name of a state.
fn state_name(s: StateStackState) -> (r: &'static str)
    ensures
        r@ == s_name(s),
{
    match s {
        StateStackState::A => "A",
        StateStackState::B => "B",
        StateStackState::C => "C",
    }
}

/// The name of the enter event delivered to a state.
fn state_enter_event(s: StateStackState) -> (r: &'static str)
    ensures
        r@ == enter_name(s),
{
    match s {
        StateStackState::A => "A:>",
        StateStackState::B => "B:>",
        StateStackState::C => "C:>",
    }
}

/// The name of the exit event delivered to a state.
fn state_exit_event(s: StateStackState) -> (r: &'static str)
    ensures
        r@ == exit_name(s),
{
    match s {
        StateStackState::A => "A:<",
        StateStackState::B => "B:<",
        StateStackState::C => "C:<",
    }
}

/// The name of the interface event that transitions into a state.
fn state_to_event(s: StateStackState) -> (r: &'static str)
    ensures
        r@ == to_event_name(s),
{
    match s {
        StateStackState::A => "to_a",
        StateStackState::B => "to_b",
        StateStackState::C => "to_c",
    }
}

/// The notifications of one interface transition from one state into
/// another: the triggering event brackets the exit event, the transition
/// and the enter event.
pub open spec fn notes_to(from: StateStackState, to: StateStackState) -> Seq<Notification> {
    seq![
        sent_note(to_event_name(to)),
        sent_note(exit_name(from)),
        handled_note(exit_name(from)),
        trans_note(trans_id(from, to), TransitionKind::Transition, s_name(from), s_name(to)),
        sent_note(enter_name(to)),
        handled_note(enter_name(to)),
        handled_note(to_event_name(to)),
    ]
}

/// The notifications of a pop that restores a saved state through the
/// full transition protocol.
pub open spec fn notes_pop(from: StateStackState, to: StateStackState) -> Seq<Notification> {
    seq![
        sent_note("pop"@),
        sent_note(exit_name(from)),
        handled_note(exit_name(from)),
        trans_note(pop_id(from), TransitionKind::Transition, s_name(from), s_name(to)),
        sent_note(enter_name(to)),
        handled_note(enter_name(to)),
        handled_note("pop"@),
    ]
}

/// The notifications of a pop that restores a saved state through a
/// change-state: no exit or enter events.
pub open spec fn notes_pop_change(from: StateStackState, to: StateStackState) -> Seq<
    Notification,
> {
    seq![
        sent_note("pop_change"@),
        trans_note(pop_change_id(from), TransitionKind::ChangeState, s_name(from), s_name(to)),
        handled_note("pop_change"@),
    ]
}

/// The static shape of this machine type: its states, its events
/// including the enter and exit events of every state, its transition
/// table including the stack-restoring transitions whose target is the
/// sentinel pop-placeholder state, and its public interface.
pub fn machine_info() -> (r: MachineInfo)
    ensures
        r.name@ == "StateStack"@,
        r.states@.len() == 3,
        r.states@[0].name@ == "A"@,
        r.states@[1].name@ == "B"@,
        r.states@[2].name@ == "C"@,
        r.events@.len() == 12,
        r.events@[0].name@ == "to_a"@,
        r.events@[1].name@ == "to_b"@,
        r.events@[2].name@ == "to_c"@,
        r.events@[3].name@ == "push"@,
        r.events@[4].name@ == "pop"@,
        r.events@[5].name@ == "pop_change"@,
        r.events@[6].name@ == "A:>"@,
        r.events@[7].name@ == "B:>"@,
        r.events@[8].name@ == "C:>"@,
        r.events@[9].name@ == "A:<"@,
        r.events@[10].name@ == "B:<"@,
        r.events@[11].name@ == "C:<"@,
        r.transitions@.len() == 15,
        transition_entry(r.transitions@[0], 0, TransitionKind::Transition, "to_a"@, "A"@, "A"@),
        transition_entry(r.transitions@[1], 1, TransitionKind::Transition, "to_b"@, "A"@, "B"@),
        transition_entry(r.transitions@[2], 2, TransitionKind::Transition, "to_c"@, "A"@, "C"@),
        transition_entry(r.transitions@[3], 3, TransitionKind::Transition, "to_a"@, "B"@, "A"@),
        transition_entry(r.transitions@[4], 4, TransitionKind::Transition, "to_b"@, "B"@, "B"@),
        transition_entry(r.transitions@[5], 5, TransitionKind::Transition, "to_c"@, "B"@, "C"@),
        transition_entry(r.transitions@[6], 6, TransitionKind::Transition, "to_a"@, "C"@, "A"@),
        transition_entry(r.transitions@[7], 7, TransitionKind::Transition, "to_b"@, "C"@, "B"@),
        transition_entry(r.transitions@[8], 8, TransitionKind::Transition, "to_c"@, "C"@, "C"@),
        pop_transition_entry(r.transitions@[9], 9, TransitionKind::Transition, "pop"@, "A"@),
        pop_transition_entry(r.transitions@[10], 10, TransitionKind::Transition, "pop"@, "B"@),
        pop_transition_entry(r.transitions@[11], 11, TransitionKind::Transition, "pop"@, "C"@),
        pop_transition_entry(r.transitions@[12], 12, TransitionKind::ChangeState, "pop_change"@, "A"@),
        pop_transition_entry(r.transitions@[13], 13, TransitionKind::ChangeState, "pop_change"@, "B"@),
        pop_transition_entry(r.transitions@[14], 14, TransitionKind::ChangeState, "pop_change"@, "C"@),
        r.interface@.len() == 6,
        r.interface@[0].name@ == "to_a"@,
        r.interface@[1].name@ == "to_b"@,
        r.interface@[2].name@ == "to_c"@,
        r.interface@[3].name@ == "push"@,
        r.interface@[4].name@ == "pop"@,
        r.interface@[5].name@ == "pop_change"@,
{
    let mut states: Vec<StateInfo> = Vec::new();
    states.push(plain_state_info("A"));
    states.push(plain_state_info("B"));
    states.push(plain_state_info("C"));
    let mut events: Vec<MethodInfo> = Vec::new();
    events.push(plain_method_info("to_a"));
    events.push(plain_method_info("to_b"));
    events.push(plain_method_info("to_c"));
    events.push(plain_method_info("push"));
    events.push(plain_method_info("pop"));
    events.push(plain_method_info("pop_change"));
    events.push(plain_method_info("A:>"));
    events.push(plain_method_info("B:>"));
    events.push(plain_method_info("C:>"));
    events.push(plain_method_info("A:<"));
    events.push(plain_method_info("B:<"));
    events.push(plain_method_info("C:<"));
    let mut transitions: Vec<TransitionInfo> = Vec::new();
    transitions.push(plain_transition_info(0, TransitionKind::Transition, "to_a", "A", "A"));
    transitions.push(plain_transition_info(1, TransitionKind::Transition, "to_b", "A", "B"));
    transitions.push(plain_transition_info(2, TransitionKind::Transition, "to_c", "A", "C"));
    transitions.push(plain_transition_info(3, TransitionKind::Transition, "to_a", "B", "A"));
    transitions.push(plain_transition_info(4, TransitionKind::Transition, "to_b", "B", "B"));
    transitions.push(plain_transition_info(5, TransitionKind::Transition, "to_c", "B", "C"));
    transitions.push(plain_transition_info(6, TransitionKind::Transition, "to_a", "C", "A"));
    transitions.push(plain_transition_info(7, TransitionKind::Transition, "to_b", "C", "B"));
    transitions.push(plain_transition_info(8, TransitionKind::Transition, "to_c", "C", "C"));
    transitions.push(pop_transition_info(9, TransitionKind::Transition, "pop", StateStackState::A));
    transitions.push(pop_transition_info(10, TransitionKind::Transition, "pop", StateStackState::B));
    transitions.push(pop_transition_info(11, TransitionKind::Transition, "pop", StateStackState::C));
    transitions.push(pop_transition_info(12, TransitionKind::ChangeState, "pop_change", StateStackState::A));
    transitions.push(pop_transition_info(13, TransitionKind::ChangeState, "pop_change", StateStackState::B));
    transitions.push(pop_transition_info(14, TransitionKind::ChangeState, "pop_change", StateStackState::C));
    let mut interface: Vec<MethodInfo> = Vec::new();
    interface.push(plain_method_info("to_a"));
    interface.push(plain_method_info("to_b"));
    interface.push(plain_method_info("to_c"));
    interface.push(plain_method_info("push"));
    interface.push(plain_method_info("pop"));
    interface.push(plain_method_info("pop_change"));
    MachineInfo { name: "StateStack".to_owned(), states, events, transitions, interface }
}

/// The transition model of an interface transition into a state.
pub open spec fn to_trans_model(from: StateStackState, to: StateStackState) -> TransModel {
    TransModel {
        id: trans_id(from, to),
        kind: TransitionKind::Transition,
        old: plain_state(s_name(from)),
        new: plain_state(s_name(to)),
    }
}

/// The transition model of a stack-pop restoration through the full
/// transition protocol.
pub open spec fn pop_trans_model(from: StateStackState, to: StateStackState) -> TransModel {
    TransModel {
        id: pop_id(from),
        kind: TransitionKind::Transition,
        old: plain_state(s_name(from)),
        new: plain_state(s_name(to)),
    }
}

/// The transition model of a stack-pop restoration through a
/// change-state.
pub open spec fn pop_change_trans_model(from: StateStackState, to: StateStackState) ->
    TransModel {
    TransModel {
        id: pop_change_id(from),
        kind: TransitionKind::ChangeState,
        old: plain_state(s_name(from)),
        new: plain_state(s_name(to)),
    }
}

/// Replaying a dispatch that transitions nothing records exactly its one
/// handled event.
proof fn lemma_replay_of_plain_dispatch(
    ehist: Seq<EventModel>,
    ecap: Option<usize>,
    thist: Seq<TransModel>,
    tcap: Option<usize>,
    name: Seq<char>,
)
    ensures
        replay_events(ehist, ecap, seq![sent_note(name), handled_note(name)]) == evict_push(
            ehist,
            ecap,
            plain_event(name),
        ),
        replay_transitions(thist, tcap, seq![sent_note(name), handled_note(name)]) == thist,
{
    reveal_with_fuel(replay_events, 4);
    reveal_with_fuel(replay_transitions, 4);
    let n = seq![sent_note(name), handled_note(name)];
    assert(n.drop_first() =~= seq![handled_note(name)]);
    assert(n.drop_first().drop_first() =~= Seq::<Notification>::empty());
}

/// Replaying an interface transition records its exit, enter and
/// triggering events and its one transition.
proof fn lemma_replay_of_to(
    ehist: Seq<EventModel>,
    ecap: Option<usize>,
    thist: Seq<TransModel>,
    tcap: Option<usize>,
    from: StateStackState,
    to: StateStackState,
)
    ensures
        replay_events(ehist, ecap, notes_to(from, to)) == evict_push(
            evict_push(
                evict_push(ehist, ecap, plain_event(exit_name(from))),
                ecap,
                plain_event(enter_name(to)),
            ),
            ecap,
            plain_event(to_event_name(to)),
        ),
        replay_transitions(thist, tcap, notes_to(from, to)) == evict_push(
            thist,
            tcap,
            to_trans_model(from, to),
        ),
{
    reveal_with_fuel(replay_events, 9);
    reveal_with_fuel(replay_transitions, 9);
    let n = notes_to(from, to);
    assert(n.drop_first() =~= n.skip(1));
    assert(n.skip(1).drop_first() =~= n.skip(2));
    assert(n.skip(2).drop_first() =~= n.skip(3));
    assert(n.skip(3).drop_first() =~= n.skip(4));
    assert(n.skip(4).drop_first() =~= n.skip(5));
    assert(n.skip(5).drop_first() =~= n.skip(6));
    assert(n.skip(6).drop_first() =~= Seq::<Notification>::empty());
}

/// Replaying a pop through the full transition protocol records its
/// exit, enter and triggering events and its one transition.
proof fn lemma_replay_of_pop(
    ehist: Seq<EventModel>,
    ecap: Option<usize>,
    thist: Seq<TransModel>,
    tcap: Option<usize>,
    from: StateStackState,
    to: StateStackState,
)
    ensures
        replay_events(ehist, ecap, notes_pop(from, to)) == evict_push(
            evict_push(
                evict_push(ehist, ecap, plain_event(exit_name(from))),
                ecap,
                plain_event(enter_name(to)),
            ),
            ecap,
            plain_event("pop"@),
        ),
        replay_transitions(thist, tcap, notes_pop(from, to)) == evict_push(
            thist,
            tcap,
            pop_trans_model(from, to),
        ),
{
    reveal_with_fuel(replay_events, 9);
    reveal_with_fuel(replay_transitions, 9);
    let n = notes_pop(from, to);
    assert(n.drop_first() =~= n.skip(1));
    assert(n.skip(1).drop_first() =~= n.skip(2));
    assert(n.skip(2).drop_first() =~= n.skip(3));
    assert(n.skip(3).drop_first() =~= n.skip(4));
    assert(n.skip(4).drop_first() =~= n.skip(5));
    assert(n.skip(5).drop_first() =~= n.skip(6));
    assert(n.skip(6).drop_first() =~= Seq::<Notification>::empty());
}

/// Replaying a pop through a change-state records its triggering event
/// and its one transition, and nothing else.
proof fn lemma_replay_of_pop_change(
    ehist: Seq<EventModel>,
    ecap: Option<usize>,
    thist: Seq<TransModel>,
    tcap: Option<usize>,
    from: StateStackState,
    to: StateStackState,
)
    ensures
        replay_events(ehist, ecap, notes_pop_change(from, to)) == evict_push(
            ehist,
            ecap,
            plain_event("pop_change"@),
        ),
        replay_transitions(thist, tcap, notes_pop_change(from, to)) == evict_push(
            thist,
            tcap,
            pop_change_trans_model(from, to),
        ),
{
    reveal_with_fuel(replay_events, 5);
    reveal_with_fuel(replay_transitions, 5);
    let n = notes_pop_change(from, to);
    assert(n.drop_first() =~= n.skip(1));
    assert(n.skip(1).drop_first() =~= n.skip(2));
    assert(n.skip(2).drop_first() =~= Seq::<Notification>::empty());
}

/// A machine with an explicit state stack, logging every enter and exit
/// handler run to its tape.
pub struct StateStack<EC: EventCallback, TC: TransitionCallback> {
    pub state: StateStackState,
    pub tape: Vec<String>,
    pub stack: Vec<(StateStackState, StateInstance)>,
    pub current: StateInstance,
    pub monitor: EventMonitor<EC, TC>,
}

impl<EC: EventCallback, TC: TransitionCallback> StateStack<EC, TC> {
    /// The live current state matches the state tag, and every saved
    /// entry matches its tag.
    pub open spec fn wf(&self) -> bool {
        &&& self.current@ == plain_state(s_name(self.state))
        &&& forall|i: int|
            0 <= i < self.stack@.len() ==> (#[trigger] self.stack@[i]).1@ == plain_state(
                s_name(self.stack@[i].0),
            )
    }

    /// The machine's registries and capacities are unchanged between two
    /// of its values.
    pub open spec fn same_monitor_setup(&self, other: &Self) -> bool {
        &&& self.monitor.sent_callbacks() == other.monitor.sent_callbacks()
        &&& self.monitor.handled_callbacks() == other.monitor.handled_callbacks()
        &&& self.monitor.trans_callbacks() == other.monitor.trans_callbacks()
        &&& self.monitor.event_capacity() == other.monitor.event_capacity()
        &&& self.monitor.transition_capacity() == other.monitor.transition_capacity()
    }

    /// Create the machine in its first state, with an empty stack, and
    /// dispatch the initial enter event.
    pub fn new() -> (r: Self)
        ensures
            r.state == StateStackState::A,
            r.wf(),
            r.stack@ == Seq::<(StateStackState, StateInstance)>::empty(),
            r.monitor.notifications() == seq![
                sent_note(enter_name(StateStackState::A)),
                handled_note(enter_name(StateStackState::A)),
            ],
            r.tape.deep_view() == seq![enter_name(StateStackState::A)],
            r.monitor.events_model() == seq![plain_event(enter_name(StateStackState::A))],
            r.monitor.transitions_model() == Seq::<TransModel>::empty(),
            r.monitor.wf(),
            r.monitor.event_capacity() == Option::<usize>::None,
            r.monitor.transition_capacity() == Option::<usize>::None,
            r.monitor.sent_callbacks() == Seq::<EC>::empty(),
            r.monitor.handled_callbacks() == Seq::<EC>::empty(),
            r.monitor.trans_callbacks() == Seq::<TC>::empty(),
    {
        let mut machine = StateStack {
            state: StateStackState::A,
            tape: Vec::new(),
            stack: Vec::new(),
            current: plain_state_instance("A"),
            monitor: EventMonitor::new(None, None),
        };
        let en = plain_event_instance("A:>");
        machine.monitor.event_sent(&en);
        machine.log("A:>".to_owned());
        machine.monitor.event_handled(en);
        proof {
            assert(machine.tape.deep_view() =~= seq![enter_name(StateStackState::A)]);
            assert(machine.monitor.notifications() =~= seq![
                sent_note(enter_name(StateStackState::A)),
                handled_note(enter_name(StateStackState::A)),
            ]);
            assert(machine.monitor.events_model() =~= seq![
                plain_event(enter_name(StateStackState::A)),
            ]);
        }
        machine
    }

    /// The monitor observing this machine.
    pub fn event_monitor(&self) -> (m: &EventMonitor<EC, TC>)
        ensures
            m == &self.monitor,
    {
        &self.monitor
    }

    /// Mutable access to the monitor, to register callbacks or adjust
    /// history capacities.
    pub fn event_monitor_mut(&mut self) -> (m: &mut EventMonitor<EC, TC>)
        ensures
            *m == old(self).monitor,
            final(self).monitor == *final(m),
            final(self).state == old(self).state,
            final(self).tape == old(self).tape,
            final(self).stack == old(self).stack,
            final(self).current == old(self).current,
    {
        &mut self.monitor
    }

    /// A read-only reference to the live current state.
    pub fn current_state(&self) -> (r: &StateInstance)
        ensures
            r == &self.current,
    {
        &self.current
    }

    /// The machine-wide variables. This machine declares none, so the
    /// environment answers "not found" for every name.
    pub fn domain_variables(&self) -> (r: Environment)
        ensures
            r@ == Seq::<(Seq<char>, crate::environment::ValueModel)>::empty(),
    {
        Environment::empty()
    }

    /// The logging action every enter and exit handler calls.
    pub fn log(&mut self, msg: String)
        ensures
            final(self).tape@ == old(self).tape@.push(msg),
            final(self).state == old(self).state,
            final(self).stack == old(self).stack,
            final(self).current == old(self).current,
            final(self).monitor == old(self).monitor,
    {
        self.tape.push(msg);
    }

    /// Perform one interface transition into `to`: the triggering event
    /// brackets the exit event of the old state, the swap, the
    /// transition notification and the enter event of the new state.
    fn do_transition_to(&mut self, to: StateStackState)
        requires
            old(self).wf(),
        ensures
            final(self).state == to,
            final(self).wf(),
            final(self).stack == old(self).stack,
            final(self).monitor.notifications() == old(self).monitor.notifications() + notes_to(
                old(self).state,
                to,
            ),
            final(self).tape.deep_view() == old(self).tape.deep_view() + seq![
                exit_name(old(self).state),
                enter_name(to),
            ],
            final(self).monitor.events_model() == replay_events(
                old(self).monitor.events_model(),
                old(self).monitor.event_capacity(),
                notes_to(old(self).state, to),
            ),
            final(self).monitor.transitions_model() == replay_transitions(
                old(self).monitor.transitions_model(),
                old(self).monitor.transition_capacity(),
                notes_to(old(self).state, to),
            ),
            final(self).same_monitor_setup(old(self)),
            old(self).monitor.wf() ==> final(self).monitor.wf(),
    {
        let from = self.state;
        let event = plain_event_instance(state_to_event(to));
        self.monitor.event_sent(&event);
        let exit_event = plain_event_instance(state_exit_event(from));
        self.monitor.event_sent(&exit_event);
        self.log(state_exit_event(from).to_owned());
        self.monitor.event_handled(exit_event);
        let old_inst = self.current.clone();
        let new_inst = plain_state_instance(state_name(to));
        self.current = new_inst.clone();
        self.state = to;
        let id = 3 * (state_index(from) as u64) + (state_index(to) as u64);
        let info = plain_transition_info(
            id,
            TransitionKind::Transition,
            state_to_event(to),
            state_name(from),
            state_name(to),
        );
        let t = TransitionInstance::new(
            info,
            old_inst,
            new_inst,
            crate::environment::Environment::empty(),
            crate::environment::Environment::empty(),
        );
        self.monitor.transition_occurred(t);
        let enter_event = plain_event_instance(state_enter_event(to));
        self.monitor.event_sent(&enter_event);
        self.log(state_enter_event(to).to_owned());
        self.monitor.event_handled(enter_event);
        self.monitor.event_handled(event);
        proof {
            assert(self.monitor.notifications() =~= old(self).monitor.notifications() + notes_to(
                from,
                to,
            ));
            assert(self.tape.deep_view() =~= old(self).tape.deep_view() + seq![
                exit_name(from),
                enter_name(to),
            ]);
            lemma_replay_of_to(
                old(self).monitor.events_model(),
                old(self).monitor.event_capacity(),
                old(self).monitor.transitions_model(),
                old(self).monitor.transition_capacity(),
                from,
                to,
            );
        }
    }

    /// Transition into the first state.
    pub fn to_a(&mut self)
        requires
            old(self).wf(),
        ensures
            final(self).state == StateStackState::A,
            final(self).wf(),
            final(self).stack == old(self).stack,
            final(self).monitor.notifications() == old(self).monitor.notifications() + notes_to(
                old(self).state,
                StateStackState::A,
            ),
            final(self).tape.deep_view() == old(self).tape.deep_view() + seq![
                exit_name(old(self).state),
                enter_name(StateStackState::A),
            ],
            final(self).monitor.events_model() == replay_events(
                old(self).monitor.events_model(),
                old(self).monitor.event_capacity(),
                notes_to(old(self).state, StateStackState::A),
            ),
            final(self).monitor.transitions_model() == replay_transitions(
                old(self).monitor.transitions_model(),
                old(self).monitor.transition_capacity(),
                notes_to(old(self).state, StateStackState::A),
            ),
            final(self).same_monitor_setup(old(self)),
            old(self).monitor.wf() ==> final(self).monitor.wf(),
    {
        self.do_transition_to(StateStackState::A);
    }

    /// Transition into the second state.
    pub fn to_b(&mut self)
        requires
            old(self).wf(),
        ensures
            final(self).state == StateStackState::B,
            final(self).wf(),
            final(self).stack == old(self).stack,
            final(self).monitor.notifications() == old(self).monitor.notifications() + notes_to(
                old(self).state,
                StateStackState::B,
            ),
            final(self).tape.deep_view() == old(self).tape.deep_view() + seq![
                exit_name(old(self).state),
                enter_name(StateStackState::B),
            ],
            final(self).monitor.events_model() == replay_events(
                old(self).monitor.events_model(),
                old(self).monitor.event_capacity(),
                notes_to(old(self).state, StateStackState::B),
            ),
            final(self).monitor.transitions_model() == replay_transitions(
                old(self).monitor.transitions_model(),
                old(self).monitor.transition_capacity(),
                notes_to(old(self).state, StateStackState::B),
            ),
            final(self).same_monitor_setup(old(self)),
            old(self).monitor.wf() ==> final(self).monitor.wf(),
    {
        self.do_transition_to(StateStackState::B);
    }

    /// Transition into the third state.
    pub fn to_c(&mut self)
        requires
            old(self).wf(),
        ensures
            final(self).state == StateStackState::C,
            final(self).wf(),
            final(self).stack == old(self).stack,
            final(self).monitor.notifications() == old(self).monitor.notifications() + notes_to(
                old(self).state,
                StateStackState::C,
            ),
            final(self).tape.deep_view() == old(self).tape.deep_view() + seq![
                exit_name(old(self).state),
                enter_name(StateStackState::C),
            ],
            final(self).monitor.events_model() == replay_events(
                old(self).monitor.events_model(),
                old(self).monitor.event_capacity(),
                notes_to(old(self).state, StateStackState::C),
            ),
            final(self).monitor.transitions_model() == replay_transitions(
                old(self).monitor.transitions_model(),
                old(self).monitor.transition_capacity(),
                notes_to(old(self).state, StateStackState::C),
            ),
            final(self).same_monitor_setup(old(self)),
            old(self).monitor.wf() ==> final(self).monitor.wf(),
    {
        self.do_transition_to(StateStackState::C);
    }

    /// Duplicate the current state, with the environments bound to it,
    /// onto the stack top. The current state does not change.
    pub fn push(&mut self)
        requires
            old(self).wf(),
        ensures
            final(self).wf(),
            final(self).state == old(self).state,
            final(self).current == old(self).current,
            final(self).tape == old(self).tape,
            final(self).stack@.len() == old(self).stack@.len() + 1,
            final(self).stack@.drop_last() == old(self).stack@,
            final(self).stack@.last().0 == old(self).state,
            final(self).stack@.last().1@ == old(self).current@,
            final(self).monitor.notifications() == old(self).monitor.notifications() + seq![
                sent_note("push"@),
                handled_note("push"@),
            ],
            final(self).monitor.events_model() == evict_push(
                old(self).monitor.events_model(),
                old(self).monitor.event_capacity(),
                plain_event("push"@),
            ),
            final(self).monitor.transitions_model() == old(self).monitor.transitions_model(),
            final(self).same_monitor_setup(old(self)),
            old(self).monitor.wf() ==> final(self).monitor.wf(),
    {
        let event = plain_event_instance("push");
        self.monitor.event_sent(&event);
        let saved = self.current.clone();
        self.stack.push((self.state, saved));
        self.monitor.event_handled(event);
        proof {
            assert(self.stack@.drop_last() =~= old(self).stack@);
            assert(self.monitor.notifications() =~= old(self).monitor.notifications() + seq![
                sent_note("push"@),
                handled_note("push"@),
            ]);
        }
    }

    /// Pop the stack and install the restored state through the full
    /// transition protocol: the exit event fires for the state being
    /// left and the enter event is redispatched for the restored state,
    /// against its previously-bound environments. Popping an empty stack
    /// is a no-op; the event is still sent and handled.
    pub fn pop(&mut self)
        requires
            old(self).wf(),
        ensures
            final(self).wf(),
            final(self).same_monitor_setup(old(self)),
            old(self).stack@.len() == 0 ==> {
                &&& final(self).state == old(self).state
                &&& final(self).current == old(self).current
                &&& final(self).stack == old(self).stack
                &&& final(self).tape == old(self).tape
                &&& final(self).monitor.notifications() == old(self).monitor.notifications()
                    + seq![sent_note("pop"@), handled_note("pop"@)]
                &&& final(self).monitor.events_model() == evict_push(
                    old(self).monitor.events_model(),
                    old(self).monitor.event_capacity(),
                    plain_event("pop"@),
                )
                &&& final(self).monitor.transitions_model() == old(
                    self,
                ).monitor.transitions_model()
            },
            old(self).stack@.len() > 0 ==> {
                &&& final(self).state == old(self).stack@.last().0
                &&& final(self).current == old(self).stack@.last().1
                &&& final(self).stack@ == old(self).stack@.drop_last()
                &&& final(self).monitor.notifications() == old(self).monitor.notifications()
                    + notes_pop(old(self).state, old(self).stack@.last().0)
                &&& final(self).monitor.events_model() == replay_events(
                    old(self).monitor.events_model(),
                    old(self).monitor.event_capacity(),
                    notes_pop(old(self).state, old(self).stack@.last().0),
                )
                &&& final(self).monitor.transitions_model() == replay_transitions(
                    old(self).monitor.transitions_model(),
                    old(self).monitor.transition_capacity(),
                    notes_pop(old(self).state, old(self).stack@.last().0),
                )
                &&& final(self).tape.deep_view() == old(self).tape.deep_view() + seq![
                    exit_name(old(self).state),
                    enter_name(old(self).stack@.last().0),
                ]
            },
            old(self).monitor.wf() ==> final(self).monitor.wf(),
    {
        let event = plain_event_instance("pop");
        self.monitor.event_sent(&event);
        if self.stack.len() > 0 {
            let from = self.state;
            let (to, restored) = self.stack.pop().unwrap();
            let exit_event = plain_event_instance(state_exit_event(from));
            self.monitor.event_sent(&exit_event);
            self.log(state_exit_event(from).to_owned());
            self.monitor.event_handled(exit_event);
            let old_inst = self.current.clone();
            let new_for_note = restored.clone();
            self.current = restored;
            self.state = to;
            let id = 9 + (state_index(from) as u64);
            let info = pop_transition_info(id, TransitionKind::Transition, "pop", from);
            let t = TransitionInstance::new(
                info,
                old_inst,
                new_for_note,
                crate::environment::Environment::empty(),
                crate::environment::Environment::empty(),
            );
            self.monitor.transition_occurred(t);
            let enter_event = plain_event_instance(state_enter_event(to));
            self.monitor.event_sent(&enter_event);
            self.log(state_enter_event(to).to_owned());
            self.monitor.event_handled(enter_event);
            self.monitor.event_handled(event);
            proof {
                assert(self.monitor.notifications() =~= old(self).monitor.notifications()
                    + notes_pop(from, to));
                assert(self.tape.deep_view() =~= old(self).tape.deep_view() + seq![
                    exit_name(from),
                    enter_name(to),
                ]);
                lemma_replay_of_pop(
                    old(self).monitor.events_model(),
                    old(self).monitor.event_capacity(),
                    old(self).monitor.transitions_model(),
                    old(self).monitor.transition_capacity(),
                    from,
                    to,
                );
            }
        } else {
            self.monitor.event_handled(event);
            proof {
                assert(self.monitor.notifications() =~= old(self).monitor.notifications()
                    + seq![sent_note("pop"@), handled_note("pop"@)]);
            }
        }
    }

    /// Pop the stack and install the restored state through a
    /// change-state: no exit or enter event fires. Popping an empty
    /// stack is a no-op; the event is still sent and handled.
    pub fn pop_change(&mut self)
        requires
            old(self).wf(),
        ensures
            final(self).wf(),
            final(self).same_monitor_setup(old(self)),
            old(self).stack@.len() == 0 ==> {
                &&& final(self).state == old(self).state
                &&& final(self).current == old(self).current
                &&& final(self).stack == old(self).stack
                &&& final(self).tape == old(self).tape
                &&& final(self).monitor.notifications() == old(self).monitor.notifications()
                    + seq![sent_note("pop_change"@), handled_note("pop_change"@)]
                &&& final(self).monitor.events_model() == evict_push(
                    old(self).monitor.events_model(),
                    old(self).monitor.event_capacity(),
                    plain_event("pop_change"@),
                )
                &&& final(self).monitor.transitions_model() == old(
                    self,
                ).monitor.transitions_model()
            },
            old(self).stack@.len() > 0 ==> {
                &&& final(self).state == old(self).stack@.last().0
                &&& final(self).current == old(self).stack@.last().1
                &&& final(self).stack@ == old(self).stack@.drop_last()
                &&& final(self).tape == old(self).tape
                &&& final(self).monitor.notifications() == old(self).monitor.notifications()
                    + notes_pop_change(old(self).state, old(self).stack@.last().0)
                &&& final(self).monitor.events_model() == replay_events(
                    old(self).monitor.events_model(),
                    old(self).monitor.event_capacity(),
                    notes_pop_change(old(self).state, old(self).stack@.last().0),
                )
                &&& final(self).monitor.transitions_model() == replay_transitions(
                    old(self).monitor.transitions_model(),
                    old(self).monitor.transition_capacity(),
                    notes_pop_change(old(self).state, old(self).stack@.last().0),
                )
            },
            old(self).monitor.wf() ==> final(self).monitor.wf(),
    {
        let event = plain_event_instance("pop_change");
        self.monitor.event_sent(&event);
        if self.stack.len() > 0 {
            let from = self.state;
            let (to, restored) = self.stack.pop().unwrap();
            let old_inst = self.current.clone();
            let new_for_note = restored.clone();
            self.current = restored;
            self.state = to;
            let id = 12 + (state_index(from) as u64);
            let info = pop_transition_info(id, TransitionKind::ChangeState, "pop_change", from);
            let t = TransitionInstance::change_state(info, old_inst, new_for_note);
            self.monitor.transition_occurred(t);
            self.monitor.event_handled(event);
            proof {
                assert(self.monitor.notifications() =~= old(self).monitor.notifications()
                    + notes_pop_change(from, to));
                lemma_replay_of_pop_change(
                    old(self).monitor.events_model(),
                    old(self).monitor.event_capacity(),
                    old(self).monitor.transitions_model(),
                    old(self).monitor.transition_capacity(),
                    from,
                    to,
                );
            }
        } else {
            self.monitor.event_handled(event);
            proof {
                assert(self.monitor.notifications() =~= old(self).monitor.notifications()
                    + seq![sent_note("pop_change"@), handled_note("pop_change"@)]);
            }
        }
    }
}

/// A state's position in the declaration order.
fn state_index(s: StateStackState) -> (r: u64)
    ensures
        r as int == s_index(s),
{
    match s {
        StateStackState::A => 0,
        StateStackState::B => 1,
        StateStackState::C => 2,
    }
}

/// The descriptor of a stack-restoring transition: its target is the
/// sentinel pop-placeholder state, because the real destination is only
/// known at dispatch time from the top of the state stack.
fn pop_transition_info(id: u64, kind: TransitionKind, event_name: &str, from: StateStackState) ->
    (r: crate::info::TransitionInfo)
    ensures
        r.id == id,
        r.kind == kind,
        r.event.name@ == event_name@,
        r.source.name@ == s_name(from),
        r.target.is_stack_pop == true,
{
    let target = StateInfo {
        name: "$$[-]".to_owned(),
        parent: None,
        parameters: Vec::new(),
        variables: Vec::new(),
        handlers: Vec::new(),
        is_stack_pop: true,
    };
    crate::info::TransitionInfo {
        id,
        kind,
        event: crate::info::MethodInfo {
            name: event_name.to_owned(),
            parameters: Vec::new(),
            return_type: None,
        },
        label: String::new(),
        source: crate::machines::plain_state_info(state_name(from)),
        target,
    }
}

/// Saving and then restoring is exact: a machine that pushed its current
/// state and later popped it, with the stack in between unchanged, is
/// back in the state it saved, with the same bound arguments and
/// variables, and the stack is as it was before the push.
pub proof fn lemma_push_then_pop_restores<EC: EventCallback, TC: TransitionCallback>(
    before: StateStack<EC, TC>,
    pushed: StateStack<EC, TC>,
    popped: StateStack<EC, TC>,
)
    requires
        before.wf(),
        pushed.stack@.len() == before.stack@.len() + 1,
        pushed.stack@.drop_last() == before.stack@,
        pushed.stack@.last().0 == before.state,
        pushed.stack@.last().1@ == before.current@,
        pushed.stack@.len() > 0,
        popped.state == pushed.stack@.last().0,
        popped.current == pushed.stack@.last().1,
        popped.stack@ == pushed.stack@.drop_last(),
    ensures
        popped.state == before.state,
        popped.current@ == before.current@,
        popped.stack@ == before.stack@,
{
}

} // verus!
