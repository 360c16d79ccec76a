//! A named, read-only value-lookup abstraction. Environments expose event
//! arguments and state variables to observers without requiring them to know
//! the concrete generated shapes. Values are drawn from a closed set of
//! kinds; extracting a value as the wrong kind is a local, unrecoverable
//! fault, while looking up an absent name is an ordinary "not found".

use vstd::prelude::*;

verus! {

/// A dynamically-typed value, a tagged union over the small set of value
/// kinds that generated machines bind to names.
pub enum Value {
    I32(i32),
    U32(u32),
    Flag(bool),
    Text(String),
}

/// The mathematical model of a `Value`: integers are widened to `int`, text
/// to its character sequence.
pub enum ValueModel {
    I32(int),
    U32(int),
    Flag(bool),
    Text(Seq<char>),
}

impl View for Value {
    type V = ValueModel;

    open spec fn view(&self) -> ValueModel {
        match self {
            Value::I32(v) => ValueModel::I32(*v as int),
            Value::U32(v) => ValueModel::U32(*v as int),
            Value::Flag(v) => ValueModel::Flag(*v),
            Value::Text(v) => ValueModel::Text(v@),
        }
    }
}

impl Clone for Value {
    fn clone(&self) -> (res: Self)
        ensures
            res == *self,
    {
        match self {
            Value::I32(v) => Value::I32(*v),
            Value::U32(v) => Value::U32(*v),
            Value::Flag(v) => Value::Flag(*v),
            Value::Text(v) => Value::Text(v.clone()),
        }
    }
}

impl Value {
    /// Extract the value as an `i32`. Asking for the wrong kind is a defect
    /// in generated or observer code, excluded here rather than recovered
    /// from.
    pub fn as_i32(&self) -> (r: i32)
        requires
            self is I32,
        ensures
            self@ == ValueModel::I32(r as int),
    {
        match self {
            Value::I32(v) => *v,
            _ => vstd::pervasive::unreached(),
        }
    }

    /// Extract the value as a `u32`; the kind must match.
    pub fn as_u32(&self) -> (r: u32)
        requires
            self is U32,
        ensures
            self@ == ValueModel::U32(r as int),
    {
        match self {
            Value::U32(v) => *v,
            _ => vstd::pervasive::unreached(),
        }
    }

    /// Extract the value as a `bool`; the kind must match.
    pub fn as_flag(&self) -> (r: bool)
        requires
            self is Flag,
        ensures
            self@ == ValueModel::Flag(r),
    {
        match self {
            Value::Flag(v) => *v,
            _ => vstd::pervasive::unreached(),
        }
    }

    /// Extract the value as text; the kind must match.
    pub fn as_text(&self) -> (r: &String)
        requires
            self is Text,
        ensures
            self@ == ValueModel::Text(r@),
    {
        match self {
            Value::Text(v) => v,
            _ => vstd::pervasive::unreached(),
        }
    }
}

/// A closed, per-site set of named values. Lookup by an absent name is not
/// an error: it answers "not found". An empty environment serves
/// parameterless states and events.
pub struct Environment {
    entries: Vec<(String, Value)>,
}

/// The model of an environment: the name/value pairs, in order.
pub type EnvModel = Seq<(Seq<char>, ValueModel)>;

impl View for Environment {
    type V = EnvModel;

    closed spec fn view(&self) -> EnvModel {
        self.entries@.map_values(|e: (String, Value)| (e.0@, e.1@))
    }
}

/// Whether the model holds an entry under `name`.
pub open spec fn env_has(env: EnvModel, name: Seq<char>) -> bool {
    exists|i: int| 0 <= i < env.len() && env[i].0 == name
}

/// The first value bound to `name` in the model.
pub open spec fn env_value_of(env: EnvModel, name: Seq<char>) -> ValueModel
    recommends
        env_has(env, name),
    decreases env.len(),
{
    if env.len() == 0 {
        ValueModel::Flag(false)
    } else if env[0].0 == name {
        env[0].1
    } else {
        env_value_of(env.drop_first(), name)
    }
}

impl Environment {
    /// The shared answer for parameterless sites: an environment that says
    /// "not found" for every name.
    pub fn empty() -> (r: Environment)
        ensures
            r@ == Seq::<(Seq<char>, ValueModel)>::empty(),
    {
        let entries: Vec<(String, Value)> = Vec::new();
        let r = Environment { entries };
        proof {
            assert(r@ =~= Seq::<(Seq<char>, ValueModel)>::empty());
        }
        r
    }

    /// Build an environment from name/value pairs.
    pub fn from_entries(entries: Vec<(String, Value)>) -> (r: Environment)
        ensures
            r@ == entries@.map_values(|e: (String, Value)| (e.0@, e.1@)),
    {
        Environment { entries }
    }

    /// How many names are bound.
    pub fn len(&self) -> (n: usize)
        ensures
            n == self@.len(),
    {
        self.entries.len()
    }

    /// Look up a value by name. An absent name yields `None`, never an
    /// error. When the same name occurs twice, the earlier binding answers.
    pub fn lookup(&self, name: &str) -> (r: Option<&Value>)
        ensures
            match r {
                Some(v) => env_has(self@, name@) && v@ == env_value_of(self@, name@),
                None => !env_has(self@, name@),
            },
    {
        let key: String = name.to_owned();
        let n = self.entries.len();
        let mut i: usize = 0;
        while i < n
            invariant
                n == self.entries.len(),
                0 <= i <= n,
                key@ == name@,
                forall|j: int| 0 <= j < i ==> self@[j].0 != name@,
            decreases n - i,
        {
            if self.entries[i].0 == key {
                proof {
                    lemma_env_value_at(self@, name@, i as int);
                }
                return Some(&self.entries[i].1);
            }
            i += 1;
        }
        None
    }
}

impl Clone for Environment {
    fn clone(&self) -> (res: Self)
        ensures
            res@ == self@,
    {
        let mut entries: Vec<(String, Value)> = Vec::new();
        let n = self.entries.len();
        let mut i: usize = 0;
        while i < n
            invariant
                n == self.entries.len(),
                0 <= i <= n,
                entries@ =~= self.entries@.take(i as int),
            decreases n - i,
        {
            let (name, value) = &self.entries[i];
            entries.push((name.clone(), value.clone()));
            i += 1;
        }
        proof {
            assert(entries@ =~= self.entries@);
        }
        Environment { entries }
    }
}

/// When the entry at `i` is the first whose name matches, the lookup model
/// answers with its value.
proof fn lemma_env_value_at(env: EnvModel, name: Seq<char>, i: int)
    requires
        0 <= i < env.len(),
        env[i].0 == name,
        forall|j: int| 0 <= j < i ==> env[j].0 != name,
    ensures
        env_has(env, name),
        env_value_of(env, name) == env[i].1,
    decreases i,
{
    if i > 0 {
        lemma_env_value_at(env.drop_first(), name, i - 1);
    }
}

} // verus!
