//! Live runtime values produced while a machine runs: a method instance
//! pairs an event or action descriptor with its bound arguments and, once
//! handling completes, its return value; a state instance pairs a state
//! descriptor with its bound construction arguments and variables; a
//! transition instance records one completed transition or change-state.

use vstd::prelude::*;
use vstd::string::StringExecFns;
use crate::environment::{Environment, EnvModel, Value, ValueModel};
use crate::info::{MethodInfo, StateInfo, TransitionInfo, TransitionKind};

verus! {

/// The model of a handled or in-flight event: its name and, once handling
/// completed, its return value.
pub struct EventModel {
    pub name: Seq<char>,
    pub ret: Option<ValueModel>,
}

/// The model of a live state: its name and the values bound at its
/// construction.
pub struct StateModel {
    pub name: Seq<char>,
    pub args: EnvModel,
    pub vars: EnvModel,
}

/// The model of a completed transition: the stable id and kind of its
/// descriptor and the states on both sides.
pub struct TransModel {
    pub id: int,
    pub kind: TransitionKind,
    pub old: StateModel,
    pub new: StateModel,
}

/// A method descriptor paired with the arguments it was dispatched with
/// and, after handling completes, its optional return value.
pub struct MethodInstance {
    pub info: MethodInfo,
    pub arguments: Environment,
    pub return_value: Option<Value>,
}

impl View for MethodInstance {
    type V = EventModel;

    open spec fn view(&self) -> EventModel {
        EventModel {
            name: self.info.name@,
            ret: match self.return_value {
                Some(v) => Some(v@),
                None => None,
            },
        }
    }
}

impl MethodInstance {
    /// Build an event instance that has not been handled yet.
    pub fn new(info: MethodInfo, arguments: Environment) -> (r: MethodInstance)
        ensures
            r@ == (EventModel { name: info.name@, ret: None }),
            r.arguments@ == arguments@,
    {
        MethodInstance { info, arguments, return_value: None }
    }

    /// The static descriptor of this event.
    pub fn info(&self) -> (r: &MethodInfo)
        ensures
            r == self.info,
    {
        &self.info
    }

    /// The arguments this event was dispatched with.
    pub fn arguments(&self) -> (r: &Environment)
        ensures
            r == self.arguments,
    {
        &self.arguments
    }

    /// The return value, present only once handling has completed for an
    /// event whose signature declares one.
    pub fn return_value(&self) -> (r: &Option<Value>)
        ensures
            r == self.return_value,
    {
        &self.return_value
    }

    /// The same event, with its return value filled in after handling.
    pub fn with_return(self, value: Value) -> (r: MethodInstance)
        ensures
            r@ == (EventModel { name: self@.name, ret: Some(value@) }),
            r.arguments@ == self.arguments@,
    {
        MethodInstance { info: self.info, arguments: self.arguments, return_value: Some(value) }
    }
}

impl Clone for MethodInstance {
    fn clone(&self) -> (res: Self)
        ensures
            res@ == self@,
            res.arguments@ == self.arguments@,
    {
        let return_value = match &self.return_value {
            Some(v) => Some(v.clone()),
            None => None,
        };
        MethodInstance {
            info: self.info.clone(),
            arguments: self.arguments.clone(),
            return_value,
        }
    }
}

/// A state descriptor paired with the environments bound when the state
/// was entered: its construction arguments and its variables.
pub struct StateInstance {
    pub info: StateInfo,
    pub arguments: Environment,
    pub variables: Environment,
}

impl View for StateInstance {
    type V = StateModel;

    open spec fn view(&self) -> StateModel {
        StateModel { name: self.info.name@, args: self.arguments@, vars: self.variables@ }
    }
}

impl StateInstance {
    /// Build a live state from its descriptor and bound environments.
    pub fn new(info: StateInfo, arguments: Environment, variables: Environment) -> (r:
        StateInstance)
        ensures
            r@ == (StateModel { name: info.name@, args: arguments@, vars: variables@ }),
            r.info == info,
    {
        StateInstance { info, arguments, variables }
    }

    /// The static descriptor of this state.
    pub fn info(&self) -> (r: &StateInfo)
        ensures
            r == self.info,
    {
        &self.info
    }
}

impl Clone for StateInstance {
    fn clone(&self) -> (res: Self)
        ensures
            res@ == self@,
    {
        StateInstance {
            info: self.info.clone(),
            arguments: self.arguments.clone(),
            variables: self.variables.clone(),
        }
    }
}

/// One completed transition or change-state: the descriptor that fired,
/// the state before, the state after, and the arguments that were passed
/// to the exit and enter handlers.
pub struct TransitionInstance {
    pub info: TransitionInfo,
    pub old_state: StateInstance,
    pub new_state: StateInstance,
    pub exit_arguments: Environment,
    pub enter_arguments: Environment,
}

impl View for TransitionInstance {
    type V = TransModel;

    open spec fn view(&self) -> TransModel {
        TransModel {
            id: self.info.id as int,
            kind: self.info.kind,
            old: self.old_state@,
            new: self.new_state@,
        }
    }
}

impl TransitionInstance {
    /// Record a standard transition, with the arguments handed to the exit
    /// and enter handlers.
    pub fn new(
        info: TransitionInfo,
        old_state: StateInstance,
        new_state: StateInstance,
        exit_arguments: Environment,
        enter_arguments: Environment,
    ) -> (r: TransitionInstance)
        ensures
            r@ == (TransModel {
                id: info.id as int,
                kind: info.kind,
                old: old_state@,
                new: new_state@,
            }),
            r.info == info,
            r.old_state == old_state,
            r.new_state == new_state,
    {
        TransitionInstance { info, old_state, new_state, exit_arguments, enter_arguments }
    }

    /// Record a change-state, which carries no handler arguments.
    pub fn change_state(
        info: TransitionInfo,
        old_state: StateInstance,
        new_state: StateInstance,
    ) -> (r: TransitionInstance)
        ensures
            r@ == (TransModel {
                id: info.id as int,
                kind: info.kind,
                old: old_state@,
                new: new_state@,
            }),
            r.info == info,
            r.old_state == old_state,
            r.new_state == new_state,
    {
        TransitionInstance {
            info,
            old_state,
            new_state,
            exit_arguments: Environment::empty(),
            enter_arguments: Environment::empty(),
        }
    }

    /// A short rendering of the transition: the two state names joined by
    /// an arrow, double-headed for a change-state.
    pub fn to_string(&self) -> (r: String)
        ensures
            self.info.kind is Transition ==> r@ == self@.old.name + "->"@ + self@.new.name,
            self.info.kind is ChangeState ==> r@ == self@.old.name + "->>"@ + self@.new.name,
    {
        let mut r = self.old_state.info.name.clone();
        match self.info.kind {
            TransitionKind::Transition => r.append("->"),
            TransitionKind::ChangeState => r.append("->>"),
        }
        r.append(self.new_state.info.name.as_str());
        r
    }
}

impl Clone for TransitionInstance {
    fn clone(&self) -> (res: Self)
        ensures
            res@ == self@,
    {
        TransitionInstance {
            info: self.info.clone(),
            old_state: self.old_state.clone(),
            new_state: self.new_state.clone(),
            exit_arguments: self.exit_arguments.clone(),
            enter_arguments: self.enter_arguments.clone(),
        }
    }
}

} // verus!
