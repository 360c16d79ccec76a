//! The event monitor maintains a history of previous events and
//! transitions, and notifies registered callbacks whenever an event is
//! sent, an event has been handled, or a transition occurs in a running
//! state machine. Histories are optionally bounded; eviction is strict
//! FIFO. Alongside the stored histories, the monitor keeps a ghost record
//! of every notification in the order it was delivered, which is what the
//! ordering contracts of generated machines are stated against.

use vstd::prelude::*;
use std::collections::VecDeque;
use crate::live::{EventModel, MethodInstance, TransModel, TransitionInstance};

verus! {

/// A receiver for event notifications. Implementors are registered with
/// [`EventMonitor::add_event_sent_callback`] or
/// [`EventMonitor::add_event_handled_callback`] and are invoked
/// synchronously, in registration order, once per notification. A
/// callback may be relocated to run on a different thread than where it
/// was registered, so it must be `Send`; it is never invoked
/// concurrently with another callback of the same monitor.
pub trait EventCallback: Send {
    fn invoke(&self, event: &MethodInstance);
}

/// A receiver for transition notifications, registered with
/// [`EventMonitor::add_transition_callback`]. Like an event callback, it
/// must be `Send` and is never invoked concurrently.
pub trait TransitionCallback: Send {
    fn invoke(&self, transition: &TransitionInstance);
}

/// An event callback that ignores every notification. Useful to
/// instantiate a machine whose event stream nobody observes.
pub struct NullEventCallback;

impl EventCallback for NullEventCallback {
    fn invoke(&self, _event: &MethodInstance) {
    }
}

/// A transition callback that ignores every notification.
pub struct NullTransitionCallback;

impl TransitionCallback for NullTransitionCallback {
    fn invoke(&self, _transition: &TransitionInstance) {
    }
}

/// One delivered notification, in the model: an event was sent, an event
/// was handled, or a transition occurred.
pub enum Notification {
    Sent(EventModel),
    Handled(EventModel),
    Trans(TransModel),
}

/// Append to a bounded history: with no capacity the element is appended;
/// with capacity zero recording is disabled and the history is unchanged;
/// with a full history the oldest element is evicted first.
pub open spec fn evict_push<T>(hist: Seq<T>, capacity: Option<usize>, elem: T) -> Seq<T> {
    match capacity {
        Option::None => hist.push(elem),
        Option::Some(c) => if c == 0 {
            hist
        } else if hist.len() >= c {
            hist.drop_first().push(elem)
        } else {
            hist.push(elem)
        },
    }
}

/// Shrink a history to a new capacity: the oldest elements are evicted
/// until the bound holds; raising or removing the bound changes nothing.
pub open spec fn evict_to<T>(hist: Seq<T>, capacity: Option<usize>) -> Seq<T> {
    match capacity {
        Option::None => hist,
        Option::Some(c) => if hist.len() > c {
            hist.skip(hist.len() - c)
        } else {
            hist
        },
    }
}

/// The event monitor. One exists per machine instance; it owns the event
/// and transition histories and the three callback registries.
pub struct EventMonitor<EC: EventCallback, TC: TransitionCallback> {
    event_history_capacity: Option<usize>,
    transition_history_capacity: Option<usize>,
    event_history: VecDeque<MethodInstance>,
    transition_history: VecDeque<TransitionInstance>,
    event_sent_callbacks: Vec<EC>,
    event_handled_callbacks: Vec<EC>,
    transition_callbacks: Vec<TC>,
    log: Ghost<Seq<Notification>>,
}

impl<EC: EventCallback, TC: TransitionCallback> EventMonitor<EC, TC> {
    /// The history of handled events, oldest first, in the model.
    pub closed spec fn events(&self) -> Seq<MethodInstance> {
        self.event_history@
    }

    /// The history of transitions, oldest first, in the model.
    pub closed spec fn transitions(&self) -> Seq<TransitionInstance> {
        self.transition_history@
    }

    /// The bound on the event history, in the model.
    pub closed spec fn event_capacity(&self) -> Option<usize> {
        self.event_history_capacity
    }

    /// The bound on the transition history, in the model.
    pub closed spec fn transition_capacity(&self) -> Option<usize> {
        self.transition_history_capacity
    }

    /// Every notification delivered so far, in delivery order.
    pub closed spec fn notifications(&self) -> Seq<Notification> {
        self.log@
    }

    /// The models of the stored events, oldest first.
    pub open spec fn events_model(&self) -> Seq<EventModel> {
        models_of(self.events())
    }

    /// The models of the stored transitions, oldest first.
    pub open spec fn transitions_model(&self) -> Seq<TransModel> {
        models_of(self.transitions())
    }

    /// The registered event-sent callbacks, in registration order.
    pub closed spec fn sent_callbacks(&self) -> Seq<EC> {
        self.event_sent_callbacks@
    }

    /// The registered event-handled callbacks, in registration order.
    pub closed spec fn handled_callbacks(&self) -> Seq<EC> {
        self.event_handled_callbacks@
    }

    /// The registered transition callbacks, in registration order.
    pub closed spec fn trans_callbacks(&self) -> Seq<TC> {
        self.transition_callbacks@
    }

    /// Both histories respect their capacities.
    pub open spec fn wf(&self) -> bool {
        &&& (self.event_capacity() matches Some(c) ==> self.events().len() <= c)
        &&& (self.transition_capacity() matches Some(c) ==> self.transitions().len() <= c)
    }

    /// Create a new event monitor. The arguments bound the number of
    /// events and transitions maintained as history: `None` is unbounded,
    /// `Some(0)` disables recording for that stream while its callbacks
    /// still fire.
    pub fn new(event_capacity: Option<usize>, transition_capacity: Option<usize>) -> (r: Self)
        ensures
            r.event_capacity() == event_capacity,
            r.transition_capacity() == transition_capacity,
            r.events() == Seq::<MethodInstance>::empty(),
            r.transitions() == Seq::<TransitionInstance>::empty(),
            r.notifications() == Seq::<Notification>::empty(),
            r.sent_callbacks() == Seq::<EC>::empty(),
            r.handled_callbacks() == Seq::<EC>::empty(),
            r.trans_callbacks() == Seq::<TC>::empty(),
            r.wf(),
    {
        EventMonitor {
            event_history_capacity: event_capacity,
            transition_history_capacity: transition_capacity,
            event_history: new_deque(&event_capacity),
            transition_history: new_deque(&transition_capacity),
            event_sent_callbacks: Vec::new(),
            event_handled_callbacks: Vec::new(),
            transition_callbacks: Vec::new(),
            log: Ghost(Seq::empty()),
        }
    }

    /// Register a callback invoked when an event is sent, before it has
    /// been handled. For a dispatch that triggers a transition, the
    /// notifications arrive in causal, depth-first order: the triggering
    /// event first, then the exit event of the old state, then the enter
    /// event of the new state.
    pub fn add_event_sent_callback(&mut self, callback: EC)
        ensures
            final(self).sent_callbacks() == old(self).sent_callbacks().push(callback),
            final(self).handled_callbacks() == old(self).handled_callbacks(),
            final(self).trans_callbacks() == old(self).trans_callbacks(),
            final(self).events() == old(self).events(),
            final(self).transitions() == old(self).transitions(),
            final(self).event_capacity() == old(self).event_capacity(),
            final(self).transition_capacity() == old(self).transition_capacity(),
            final(self).notifications() == old(self).notifications(),
    {
        self.event_sent_callbacks.push(callback);
    }

    /// Register a callback invoked after an event has been completely
    /// handled, when the instance carries the event's return value, if
    /// any. For a dispatch that triggers a transition, the notifications
    /// arrive in completion, stack-unwind order: the exit event of the old
    /// state first, then the enter event of the new state, then the
    /// triggering event.
    pub fn add_event_handled_callback(&mut self, callback: EC)
        ensures
            final(self).handled_callbacks() == old(self).handled_callbacks().push(callback),
            final(self).sent_callbacks() == old(self).sent_callbacks(),
            final(self).trans_callbacks() == old(self).trans_callbacks(),
            final(self).events() == old(self).events(),
            final(self).transitions() == old(self).transitions(),
            final(self).event_capacity() == old(self).event_capacity(),
            final(self).transition_capacity() == old(self).transition_capacity(),
            final(self).notifications() == old(self).notifications(),
    {
        self.event_handled_callbacks.push(callback);
    }

    /// Register a callback invoked after each transition completes,
    /// including the processing of its exit and enter events.
    pub fn add_transition_callback(&mut self, callback: TC)
        ensures
            final(self).trans_callbacks() == old(self).trans_callbacks().push(callback),
            final(self).sent_callbacks() == old(self).sent_callbacks(),
            final(self).handled_callbacks() == old(self).handled_callbacks(),
            final(self).events() == old(self).events(),
            final(self).transitions() == old(self).transitions(),
            final(self).event_capacity() == old(self).event_capacity(),
            final(self).transition_capacity() == old(self).transition_capacity(),
            final(self).notifications() == old(self).notifications(),
    {
        self.transition_callbacks.push(callback);
    }

    /// Notify that an event was sent: every event-sent callback runs, in
    /// registration order, before this returns. The history is not
    /// touched; the event is recorded there only once it has been handled.
    pub fn event_sent(&mut self, event: &MethodInstance)
        ensures
            final(self).notifications() == old(self).notifications().push(
                Notification::Sent(event@),
            ),
            final(self).events() == old(self).events(),
            final(self).transitions() == old(self).transitions(),
            final(self).event_capacity() == old(self).event_capacity(),
            final(self).transition_capacity() == old(self).transition_capacity(),
            final(self).sent_callbacks() == old(self).sent_callbacks(),
            final(self).handled_callbacks() == old(self).handled_callbacks(),
            final(self).trans_callbacks() == old(self).trans_callbacks(),
            old(self).wf() ==> final(self).wf(),
    {
        self.log = Ghost(self.log@.push(Notification::Sent(event@)));
        let ghost snapshot = *self;
        let n = self.event_sent_callbacks.len();
        let mut i: usize = 0;
        while i < n
            invariant
                *self == snapshot,
                n == self.event_sent_callbacks.len(),
                0 <= i <= n,
            decreases n - i,
        {
            self.event_sent_callbacks[i].invoke(event);
            i += 1;
        }
    }

    /// Record that an event was completely handled: the event enters the
    /// history, subject to capacity and FIFO eviction, and every
    /// event-handled callback then runs in registration order.
    pub fn event_handled(&mut self, event: MethodInstance)
        ensures
            final(self).events() == evict_push(
                old(self).events(),
                old(self).event_capacity(),
                event,
            ),
            final(self).events_model() == evict_push(
                old(self).events_model(),
                old(self).event_capacity(),
                event@,
            ),
            final(self).notifications() == old(self).notifications().push(
                Notification::Handled(event@),
            ),
            final(self).transitions() == old(self).transitions(),
            final(self).event_capacity() == old(self).event_capacity(),
            final(self).transition_capacity() == old(self).transition_capacity(),
            final(self).sent_callbacks() == old(self).sent_callbacks(),
            final(self).handled_callbacks() == old(self).handled_callbacks(),
            final(self).trans_callbacks() == old(self).trans_callbacks(),
            old(self).wf() ==> final(self).wf(),
    {
        self.log = Ghost(self.log@.push(Notification::Handled(event@)));
        let copy = event.clone();
        proof {
            lemma_evict_push_models(self.event_history@, self.event_history_capacity, event);
        }
        push_to_deque(&self.event_history_capacity, &mut self.event_history, event);
        let ghost snapshot = *self;
        let n = self.event_handled_callbacks.len();
        let mut i: usize = 0;
        while i < n
            invariant
                *self == snapshot,
                n == self.event_handled_callbacks.len(),
                0 <= i <= n,
            decreases n - i,
        {
            self.event_handled_callbacks[i].invoke(&copy);
            i += 1;
        }
    }

    /// Record that a transition occurred: the transition enters the
    /// history, subject to capacity and FIFO eviction, and every
    /// transition callback then runs in registration order.
    pub fn transition_occurred(&mut self, transition: TransitionInstance)
        ensures
            final(self).transitions() == evict_push(
                old(self).transitions(),
                old(self).transition_capacity(),
                transition,
            ),
            final(self).transitions_model() == evict_push(
                old(self).transitions_model(),
                old(self).transition_capacity(),
                transition@,
            ),
            final(self).notifications() == old(self).notifications().push(
                Notification::Trans(transition@),
            ),
            final(self).events() == old(self).events(),
            final(self).event_capacity() == old(self).event_capacity(),
            final(self).transition_capacity() == old(self).transition_capacity(),
            final(self).sent_callbacks() == old(self).sent_callbacks(),
            final(self).handled_callbacks() == old(self).handled_callbacks(),
            final(self).trans_callbacks() == old(self).trans_callbacks(),
            old(self).wf() ==> final(self).wf(),
    {
        self.log = Ghost(self.log@.push(Notification::Trans(transition@)));
        let copy = transition.clone();
        proof {
            lemma_evict_push_models(
                self.transition_history@,
                self.transition_history_capacity,
                transition,
            );
        }
        push_to_deque(
            &self.transition_history_capacity,
            &mut self.transition_history,
            transition,
        );
        let ghost snapshot = *self;
        let n = self.transition_callbacks.len();
        let mut i: usize = 0;
        while i < n
            invariant
                *self == snapshot,
                n == self.transition_callbacks.len(),
                0 <= i <= n,
            decreases n - i,
        {
            self.transition_callbacks[i].invoke(&copy);
            i += 1;
        }
    }

    /// The history of handled events, oldest first.
    pub fn event_history(&self) -> (r: &VecDeque<MethodInstance>)
        ensures
            r@ == self.events(),
    {
        &self.event_history
    }

    /// The history of transitions that occurred, oldest first.
    pub fn transition_history(&self) -> (r: &VecDeque<TransitionInstance>)
        ensures
            r@ == self.transitions(),
    {
        &self.transition_history
    }

    /// Empty the event history without changing its capacity.
    pub fn clear_event_history(&mut self)
        ensures
            final(self).events() == Seq::<MethodInstance>::empty(),
            final(self).transitions() == old(self).transitions(),
            final(self).event_capacity() == old(self).event_capacity(),
            final(self).transition_capacity() == old(self).transition_capacity(),
            final(self).notifications() == old(self).notifications(),
            final(self).sent_callbacks() == old(self).sent_callbacks(),
            final(self).handled_callbacks() == old(self).handled_callbacks(),
            final(self).trans_callbacks() == old(self).trans_callbacks(),
            old(self).wf() ==> final(self).wf(),
    {
        self.event_history = new_deque(&self.event_history_capacity);
    }

    /// Empty the transition history without changing its capacity.
    pub fn clear_transition_history(&mut self)
        ensures
            final(self).transitions() == Seq::<TransitionInstance>::empty(),
            final(self).events() == old(self).events(),
            final(self).event_capacity() == old(self).event_capacity(),
            final(self).transition_capacity() == old(self).transition_capacity(),
            final(self).notifications() == old(self).notifications(),
            final(self).sent_callbacks() == old(self).sent_callbacks(),
            final(self).handled_callbacks() == old(self).handled_callbacks(),
            final(self).trans_callbacks() == old(self).trans_callbacks(),
            old(self).wf() ==> final(self).wf(),
    {
        self.transition_history = new_deque(&self.transition_history_capacity);
    }

    /// Set the bound on the event history. Lowering it below the current
    /// length immediately evicts the oldest entries down to the new bound;
    /// raising it or removing it never evicts.
    pub fn set_event_history_capacity(&mut self, capacity: Option<usize>)
        ensures
            final(self).event_capacity() == capacity,
            final(self).events() == evict_to(old(self).events(), capacity),
            final(self).transitions() == old(self).transitions(),
            final(self).transition_capacity() == old(self).transition_capacity(),
            final(self).notifications() == old(self).notifications(),
            final(self).sent_callbacks() == old(self).sent_callbacks(),
            final(self).handled_callbacks() == old(self).handled_callbacks(),
            final(self).trans_callbacks() == old(self).trans_callbacks(),
            old(self).wf() ==> final(self).wf(),
    {
        resize_deque(&capacity, &mut self.event_history);
        self.event_history_capacity = capacity;
    }

    /// Set the bound on the transition history, with the same eviction
    /// rule as for events.
    pub fn set_transition_history_capacity(&mut self, capacity: Option<usize>)
        ensures
            final(self).transition_capacity() == capacity,
            final(self).transitions() == evict_to(old(self).transitions(), capacity),
            final(self).events() == old(self).events(),
            final(self).event_capacity() == old(self).event_capacity(),
            final(self).notifications() == old(self).notifications(),
            final(self).sent_callbacks() == old(self).sent_callbacks(),
            final(self).handled_callbacks() == old(self).handled_callbacks(),
            final(self).trans_callbacks() == old(self).trans_callbacks(),
            old(self).wf() ==> final(self).wf(),
    {
        resize_deque(&capacity, &mut self.transition_history);
        self.transition_history_capacity = capacity;
    }

    /// The bound on the event history.
    pub fn get_event_history_capacity(&self) -> (r: Option<usize>)
        ensures
            r == self.event_capacity(),
    {
        self.event_history_capacity
    }

    /// The bound on the transition history.
    pub fn get_transition_history_capacity(&self) -> (r: Option<usize>)
        ensures
            r == self.transition_capacity(),
    {
        self.transition_history_capacity
    }

    /// The most recent transition, or `None` when the machine has not
    /// transitioned yet, the history was cleared, or its capacity is zero.
    pub fn last_transition(&self) -> (r: Option<&TransitionInstance>)
        ensures
            match r {
                Some(t) => self.transitions().len() > 0 && t == self.transitions().last(),
                None => self.transitions().len() == 0,
            },
    {
        let n = self.transition_history.len();
        if n == 0 {
            None
        } else {
            Some(&self.transition_history[n - 1])
        }
    }
}

impl<EC: EventCallback, TC: TransitionCallback> Default for EventMonitor<EC, TC> {
    /// A monitor that records no events and only the most recent
    /// transition.
    fn default() -> (r: Self)
        ensures
            r.event_capacity() == Some(0usize),
            r.transition_capacity() == Some(1usize),
            r.events() == Seq::<MethodInstance>::empty(),
            r.transitions() == Seq::<TransitionInstance>::empty(),
            r.notifications() == Seq::<Notification>::empty(),
            r.sent_callbacks() == Seq::<EC>::empty(),
            r.handled_callbacks() == Seq::<EC>::empty(),
            r.trans_callbacks() == Seq::<TC>::empty(),
            r.wf(),
    {
        EventMonitor::new(Some(0), Some(1))
    }
}

/// Add an element to a possibly bounded deque, evicting the oldest entry
/// when a nonzero bound is reached and skipping storage entirely when the
/// bound is zero.
fn push_to_deque<T>(capacity: &Option<usize>, deque: &mut VecDeque<T>, elem: T)
    ensures
        final(deque)@ == evict_push(old(deque)@, *capacity, elem),
{
    match *capacity {
        Some(cap) => {
            if cap > 0 {
                if deque.len() >= cap {
                    let _ = deque.pop_front();
                }
                deque.push_back(elem);
            }
        },
        None => deque.push_back(elem),
    }
}

/// Shrink a possibly bounded deque to a new bound, evicting the oldest
/// entries.
fn resize_deque<T>(new_capacity: &Option<usize>, deque: &mut VecDeque<T>)
    ensures
        final(deque)@ == evict_to(old(deque)@, *new_capacity),
{
    if let Some(cap) = *new_capacity {
        if deque.len() < cap {
            deque.reserve(cap - deque.len());
        }
        while deque.len() > cap
            invariant
                evict_to(deque@, Some(cap)) == evict_to(old(deque)@, Some(cap)),
            decreases deque@.len(),
        {
            let ghost before = deque@;
            let _ = deque.pop_front();
            proof {
                assert(deque@ =~= before.skip(1));
                if before.len() > cap + 1 {
                    assert(before.skip(1).skip(before.skip(1).len() - cap) =~= before.skip(
                        before.len() - cap,
                    ));
                } else {
                    assert(before.skip(1) =~= before.skip(before.len() - cap));
                }
            }
        }
    }
}

/// Create a possibly bounded deque, reserving space up front for a known
/// bound.
fn new_deque<T>(capacity: &Option<usize>) -> (r: VecDeque<T>)
    ensures
        r@ == Seq::<T>::empty(),
{
    match *capacity {
        Some(cap) => VecDeque::with_capacity(cap),
        None => VecDeque::new(),
    }
}

/// The models of a stored history's entries, in order.
pub open spec fn models_of<T: View>(hist: Seq<T>) -> Seq<T::V> {
    hist.map_values(|x: T| x@)
}

/// The event history that results from delivering a record of
/// notifications into a given history under a given capacity: each
/// handled notification is recorded with FIFO eviction, everything else
/// leaves the history alone.
pub open spec fn replay_events(
    hist: Seq<EventModel>,
    capacity: Option<usize>,
    notes: Seq<Notification>,
) -> Seq<EventModel>
    decreases notes.len(),
{
    if notes.len() == 0 {
        hist
    } else {
        let after = match notes[0] {
            Notification::Handled(e) => evict_push(hist, capacity, e),
            _ => hist,
        };
        replay_events(after, capacity, notes.drop_first())
    }
}

/// The transition history that results from delivering a record of
/// notifications: each transition notification is recorded with FIFO
/// eviction, everything else leaves the history alone.
pub open spec fn replay_transitions(
    hist: Seq<TransModel>,
    capacity: Option<usize>,
    notes: Seq<Notification>,
) -> Seq<TransModel>
    decreases notes.len(),
{
    if notes.len() == 0 {
        hist
    } else {
        let after = match notes[0] {
            Notification::Trans(t) => evict_push(hist, capacity, t),
            _ => hist,
        };
        replay_transitions(after, capacity, notes.drop_first())
    }
}

/// Recording an entry commutes with taking models: the model history of
/// the recorded exec history is the model recorded into the model
/// history.
pub proof fn lemma_evict_push_models<T: View>(hist: Seq<T>, capacity: Option<usize>, elem: T)
    ensures
        models_of(evict_push(hist, capacity, elem)) == evict_push(
            models_of(hist),
            capacity,
            elem@,
        ),
{
    match capacity {
        Option::None => {
            assert(models_of(hist.push(elem)) =~= models_of(hist).push(elem@));
        },
        Option::Some(c) => {
            if c == 0 {
            } else if hist.len() >= c {
                assert(models_of(hist.drop_first().push(elem)) =~= models_of(
                    hist,
                ).drop_first().push(elem@));
            } else {
                assert(models_of(hist.push(elem)) =~= models_of(hist).push(elem@));
            }
        },
    }
}

/// Delivering two records in sequence replays the first and then the
/// second.
pub proof fn lemma_replay_events_over_add(
    hist: Seq<EventModel>,
    capacity: Option<usize>,
    a: Seq<Notification>,
    b: Seq<Notification>,
)
    ensures
        replay_events(hist, capacity, a + b) == replay_events(
            replay_events(hist, capacity, a),
            capacity,
            b,
        ),
    decreases a.len(),
{
    if a.len() == 0 {
        assert(a + b =~= b);
    } else {
        assert((a + b).drop_first() =~= a.drop_first() + b);
        let after = match a[0] {
            Notification::Handled(e) => evict_push(hist, capacity, e),
            _ => hist,
        };
        lemma_replay_events_over_add(after, capacity, a.drop_first(), b);
    }
}

/// Delivering two records in sequence replays the first and then the
/// second.
pub proof fn lemma_replay_transitions_over_add(
    hist: Seq<TransModel>,
    capacity: Option<usize>,
    a: Seq<Notification>,
    b: Seq<Notification>,
)
    ensures
        replay_transitions(hist, capacity, a + b) == replay_transitions(
            replay_transitions(hist, capacity, a),
            capacity,
            b,
        ),
    decreases a.len(),
{
    if a.len() == 0 {
        assert(a + b =~= b);
    } else {
        assert((a + b).drop_first() =~= a.drop_first() + b);
        let after = match a[0] {
            Notification::Trans(t) => evict_push(hist, capacity, t),
            _ => hist,
        };
        lemma_replay_transitions_over_add(after, capacity, a.drop_first(), b);
    }
}

/// Delivering a single notification records a handled event and ignores
/// the others.
pub proof fn lemma_replay_events_single(
    hist: Seq<EventModel>,
    capacity: Option<usize>,
    note: Notification,
)
    ensures
        replay_events(hist, capacity, seq![note]) == match note {
            Notification::Handled(e) => evict_push(hist, capacity, e),
            _ => hist,
        },
{
    reveal_with_fuel(replay_events, 3);
    assert(seq![note].drop_first() =~= Seq::<Notification>::empty());
}

/// Delivering a single notification records a transition and ignores the
/// others.
pub proof fn lemma_replay_transitions_single(
    hist: Seq<TransModel>,
    capacity: Option<usize>,
    note: Notification,
)
    ensures
        replay_transitions(hist, capacity, seq![note]) == match note {
            Notification::Trans(t) => evict_push(hist, capacity, t),
            _ => hist,
        },
{
    reveal_with_fuel(replay_transitions, 3);
    assert(seq![note].drop_first() =~= Seq::<Notification>::empty());
}

/// The names of the sent notifications in a delivery record, in order.
pub open spec fn sent_names(notes: Seq<Notification>) -> Seq<Seq<char>>
    decreases notes.len(),
{
    if notes.len() == 0 {
        Seq::empty()
    } else {
        let rest = sent_names(notes.drop_last());
        match notes.last() {
            Notification::Sent(e) => rest.push(e.name),
            _ => rest,
        }
    }
}

/// The names of the handled notifications in a delivery record, in order.
pub open spec fn handled_names(notes: Seq<Notification>) -> Seq<Seq<char>>
    decreases notes.len(),
{
    if notes.len() == 0 {
        Seq::empty()
    } else {
        let rest = handled_names(notes.drop_last());
        match notes.last() {
            Notification::Handled(e) => rest.push(e.name),
            _ => rest,
        }
    }
}

/// Projecting the sent names out of two delivery records in sequence is
/// the same as projecting each and joining the results.
pub proof fn lemma_sent_names_over_add(a: Seq<Notification>, b: Seq<Notification>)
    ensures
        sent_names(a + b) == sent_names(a) + sent_names(b),
    decreases b.len(),
{
    if b.len() == 0 {
        assert(a + b =~= a);
        assert(sent_names(a) + sent_names(b) =~= sent_names(a));
    } else {
        lemma_sent_names_over_add(a, b.drop_last());
        assert((a + b).drop_last() =~= a + b.drop_last());
        match b.last() {
            Notification::Sent(e) => {
                assert(sent_names(a) + sent_names(b) =~= (sent_names(a) + sent_names(
                    b.drop_last(),
                )).push(e.name));
            },
            _ => {},
        }
    }
}

/// Projecting the handled names out of two delivery records in sequence
/// is the same as projecting each and joining the results.
pub proof fn lemma_handled_names_over_add(a: Seq<Notification>, b: Seq<Notification>)
    ensures
        handled_names(a + b) == handled_names(a) + handled_names(b),
    decreases b.len(),
{
    if b.len() == 0 {
        assert(a + b =~= a);
        assert(handled_names(a) + handled_names(b) =~= handled_names(a));
    } else {
        lemma_handled_names_over_add(a, b.drop_last());
        assert((a + b).drop_last() =~= a + b.drop_last());
        match b.last() {
            Notification::Handled(e) => {
                assert(handled_names(a) + handled_names(b) =~= (handled_names(a) + handled_names(
                    b.drop_last(),
                )).push(e.name));
            },
            _ => {},
        }
    }
}

/// A history bounded by a nonzero capacity never exceeds it: recording one
/// more handled element keeps the length within the bound.
pub proof fn lemma_history_stays_bounded<T>(hist: Seq<T>, cap: usize, elem: T)
    requires
        hist.len() <= cap,
    ensures
        evict_push(hist, Some(cap), elem).len() <= cap,
{
}

/// With capacity zero, recording is disabled: the history never changes,
/// so one that starts empty stays empty no matter how many elements are
/// handled.
pub proof fn lemma_disabled_history_never_grows<T>(hist: Seq<T>, elem: T)
    ensures
        evict_push(hist, Some(0usize), elem) == hist,
{
}

/// With no capacity, the history grows by exactly one entry per handled
/// element, so its length equals the total count of handled elements.
pub proof fn lemma_unbounded_history_counts_all<T>(hist: Seq<T>, elem: T)
    ensures
        evict_push(hist, Option::<usize>::None, elem).len() == hist.len() + 1,
        evict_push(hist, Option::<usize>::None, elem).last() == elem,
{
}

/// Under any capacity that permits recording at all, the element just
/// recorded is the most recent entry, eviction or not.
pub proof fn lemma_last_recorded_is_newest<T>(hist: Seq<T>, capacity: Option<usize>, elem: T)
    requires
        capacity != Some(0usize),
    ensures
        evict_push(hist, capacity, elem).len() > 0,
        evict_push(hist, capacity, elem).last() == elem,
{
}

/// With no capacity, a history's length after any run equals its starting
/// length plus the total count of handled notifications in the run.
pub proof fn lemma_unbounded_history_counts_run(hist: Seq<EventModel>, notes: Seq<Notification>)
    ensures
        replay_events(hist, Option::<usize>::None, notes).len() == hist.len() + handled_names(
            notes,
        ).len(),
    decreases notes.len(),
{
    reveal_with_fuel(handled_names, 3);
    if notes.len() > 0 {
        let head = seq![notes[0]];
        let rest = notes.drop_first();
        assert(notes =~= head + rest);
        lemma_handled_names_over_add(head, rest);
        assert(head.drop_last() =~= Seq::<Notification>::empty());
        let after = match notes[0] {
            Notification::Handled(e) => evict_push(hist, Option::<usize>::None, e),
            _ => hist,
        };
        lemma_unbounded_history_counts_run(after, rest);
    }
}

/// With a bounded capacity, a history within its bound stays within it
/// over any run of notifications.
pub proof fn lemma_bounded_history_stays_bounded_run(
    hist: Seq<EventModel>,
    cap: usize,
    notes: Seq<Notification>,
)
    requires
        hist.len() <= cap,
    ensures
        replay_events(hist, Some(cap), notes).len() <= cap,
    decreases notes.len(),
{
    if notes.len() > 0 {
        let after = match notes[0] {
            Notification::Handled(e) => evict_push(hist, Some(cap), e),
            _ => hist,
        };
        lemma_bounded_history_stays_bounded_run(after, cap, notes.drop_first());
    }
}

/// Lowering a history's bound below its length evicts exactly the oldest
/// entries: what remains is the newest suffix, order preserved.
pub proof fn lemma_lowering_evicts_oldest<T>(hist: Seq<T>, cap: usize)
    requires
        cap < hist.len(),
    ensures
        evict_to(hist, Some(cap)).len() == cap,
        forall|i: int|
            0 <= i < cap ==> evict_to(hist, Some(cap))[i] == hist[hist.len() - cap + i],
{
}

/// Raising a history's bound to or beyond its length, or removing the
/// bound, evicts nothing and preserves the history exactly.
pub proof fn lemma_raising_never_evicts<T>(hist: Seq<T>, capacity: Option<usize>)
    requires
        capacity matches Some(c) ==> c >= hist.len(),
    ensures
        evict_to(hist, capacity) == hist,
{
}

} // verus!
