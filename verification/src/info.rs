//! Immutable descriptors of a machine's shape: the machine itself, its
//! states, its methods (events and actions), and its transitions. One set of
//! descriptors exists per machine type and is shared by every instance of
//! that type.

use vstd::prelude::*;

verus! {

/// A named, typed slot: a parameter or a variable declaration.
pub struct NameInfo {
    pub name: String,
    pub value_type: String,
}

impl Clone for NameInfo {
    fn clone(&self) -> (res: Self)
        ensures
            res == *self,
    {
        NameInfo { name: self.name.clone(), value_type: self.value_type.clone() }
    }
}

/// A method signature: an event or an action, with its parameters and its
/// optional return type.
pub struct MethodInfo {
    pub name: String,
    pub parameters: Vec<NameInfo>,
    pub return_type: Option<String>,
}

impl Clone for MethodInfo {
    fn clone(&self) -> (res: Self)
        ensures
            res.name == self.name,
            res.parameters@ == self.parameters@,
            res.return_type == self.return_type,
    {
        let parameters = clone_name_infos(&self.parameters);
        let return_type = match &self.return_type {
            Some(t) => Some(t.clone()),
            None => None,
        };
        MethodInfo { name: self.name.clone(), parameters, return_type }
    }
}

/// Duplicate a list of name descriptors, preserving it exactly.
fn clone_name_infos(v: &Vec<NameInfo>) -> (r: Vec<NameInfo>)
    ensures
        r@ == v@,
{
    let mut r: Vec<NameInfo> = Vec::new();
    let n = v.len();
    let mut i: usize = 0;
    while i < n
        invariant
            n == v.len(),
            0 <= i <= n,
            r@ =~= v@.take(i as int),
        decreases n - i,
    {
        r.push(v[i].clone());
        i += 1;
    }
    proof {
        assert(r@ =~= v@);
    }
    r
}

/// Duplicate a list of names, preserving it exactly.
fn clone_strings(v: &Vec<String>) -> (r: Vec<String>)
    ensures
        r@ == v@,
{
    let mut r: Vec<String> = Vec::new();
    let n = v.len();
    let mut i: usize = 0;
    while i < n
        invariant
            n == v.len(),
            0 <= i <= n,
            r@ =~= v@.take(i as int),
        decreases n - i,
    {
        r.push(v[i].clone());
        i += 1;
    }
    proof {
        assert(r@ =~= v@);
    }
    r
}

/// A state's shape: its name, optional parent, declared parameters and
/// variables, the names of the events it handles, and whether it is the
/// placeholder target of stack-restoring transitions, whose real
/// destination is only known at dispatch time from the top of the state
/// stack.
pub struct StateInfo {
    pub name: String,
    pub parent: Option<String>,
    pub parameters: Vec<NameInfo>,
    pub variables: Vec<NameInfo>,
    pub handlers: Vec<String>,
    pub is_stack_pop: bool,
}

impl Clone for StateInfo {
    fn clone(&self) -> (res: Self)
        ensures
            res.name == self.name,
            res.parent == self.parent,
            res.parameters@ == self.parameters@,
            res.variables@ == self.variables@,
            res.handlers@ == self.handlers@,
            res.is_stack_pop == self.is_stack_pop,
    {
        let parent = match &self.parent {
            Some(p) => Some(p.clone()),
            None => None,
        };
        StateInfo {
            name: self.name.clone(),
            parent,
            parameters: clone_name_infos(&self.parameters),
            variables: clone_name_infos(&self.variables),
            handlers: clone_strings(&self.handlers),
            is_stack_pop: self.is_stack_pop,
        }
    }
}

/// Was this a standard transition, which runs exit and enter logic, or a
/// change-state, which bypasses both?
#[derive(Clone, Copy, Debug, PartialEq, Eq, Structural)]
pub enum TransitionKind {
    ChangeState,
    Transition,
}

/// A transition's shape: its stable numeric id (assigned once at generation
/// time, not necessarily contiguous in any single execution trace), its
/// kind, the event that triggers it, an optional label, and its source and
/// target states.
pub struct TransitionInfo {
    pub id: u64,
    pub kind: TransitionKind,
    pub event: MethodInfo,
    pub label: String,
    pub source: StateInfo,
    pub target: StateInfo,
}

impl Clone for TransitionInfo {
    fn clone(&self) -> (res: Self)
        ensures
            res.id == self.id,
            res.kind == self.kind,
            res.event.name == self.event.name,
            res.label == self.label,
            res.source.name == self.source.name,
            res.target.name == self.target.name,
    {
        TransitionInfo {
            id: self.id,
            kind: self.kind,
            event: self.event.clone(),
            label: self.label.clone(),
            source: self.source.clone(),
            target: self.target.clone(),
        }
    }
}

/// A machine type's shape: its states, its events and actions, its
/// transitions, and the subset of methods forming the public interface.
pub struct MachineInfo {
    pub name: String,
    pub states: Vec<StateInfo>,
    pub events: Vec<MethodInfo>,
    pub transitions: Vec<TransitionInfo>,
    pub interface: Vec<MethodInfo>,
}

impl MachineInfo {
    /// Find a state descriptor by name; the first match answers.
    pub fn get_state(&self, name: &str) -> (r: Option<&StateInfo>)
        ensures
            match r {
                Some(s) => exists|i: int|
                    0 <= i < self.states@.len() && self.states@[i].name@ == name@ && s == self.states@[i],
                None => forall|i: int|
                    0 <= i < self.states@.len() ==> self.states@[i].name@ != name@,
            },
    {
        let key: String = name.to_owned();
        let n = self.states.len();
        let mut i: usize = 0;
        while i < n
            invariant
                n == self.states.len(),
                0 <= i <= n,
                key@ == name@,
                forall|j: int| 0 <= j < i ==> self.states@[j].name@ != name@,
            decreases n - i,
        {
            if self.states[i].name == key {
                return Some(&self.states[i]);
            }
            i += 1;
        }
        None
    }

    /// Find an event or action descriptor by name; the first match answers.
    pub fn get_event(&self, name: &str) -> (r: Option<&MethodInfo>)
        ensures
            match r {
                Some(m) => exists|i: int|
                    0 <= i < self.events@.len() && self.events@[i].name@ == name@ && m == self.events@[i],
                None => forall|i: int|
                    0 <= i < self.events@.len() ==> self.events@[i].name@ != name@,
            },
    {
        let key: String = name.to_owned();
        let n = self.events.len();
        let mut i: usize = 0;
        while i < n
            invariant
                n == self.events.len(),
                0 <= i <= n,
                key@ == name@,
                forall|j: int| 0 <= j < i ==> self.events@[j].name@ != name@,
            decreases n - i,
        {
            if self.events[i].name == key {
                return Some(&self.events[i]);
            }
            i += 1;
        }
        None
    }

    /// Find a transition descriptor by its stable id; the first match
    /// answers.
    pub fn get_transition(&self, id: u64) -> (r: Option<&TransitionInfo>)
        ensures
            match r {
                Some(t) => exists|i: int|
                    0 <= i < self.transitions@.len() && self.transitions@[i].id == id
                        && t == self.transitions@[i],
                None => forall|i: int|
                    0 <= i < self.transitions@.len() ==> self.transitions@[i].id != id,
            },
    {
        let n = self.transitions.len();
        let mut i: usize = 0;
        while i < n
            invariant
                n == self.transitions.len(),
                0 <= i <= n,
                forall|j: int| 0 <= j < i ==> self.transitions@[j].id != id,
            decreases n - i,
        {
            if self.transitions[i].id == id {
                return Some(&self.transitions[i]);
            }
            i += 1;
        }
        None
    }
}

} // verus!
