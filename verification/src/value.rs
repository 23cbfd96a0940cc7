//! The semantic domain: results of evaluating [`Expression`]s.

use vstd::prelude::*;

use vstd::string::StringExecFns;

pub use crate::dictionaries::Closure;
use crate::dictionaries::clone_closure;
use crate::identifier::Identifier;

verus! {

/// The result of a computation.
///
/// A [`Value`] is never a beta-redex at the top level: applying a
/// lambda always reduces at once, and only applications headed by a
/// neutral term remain as [`Neutral::Application`]s.
#[derive(Debug)]
pub enum Value {
    PiType { param_type: Box<Type>, tclosure: Closure },
    Lambda { closure: Closure },
    Universe,
    Neutral { neu: Neutral },
}

/// The record of elimination forms applied to a free variable.
///
/// When a [`Value`] is supplied for the free variable, the elimination
/// forms can be computed and a [`Value`] obtained.
#[derive(Debug)]
pub enum Neutral {
    Variable(Identifier),
    Application { func: Box<Neutral>, arg: Box<Value> },
}

/// A [`Value`] which denotes a type.
#[derive(Debug)]
pub struct Type(pub Value);

impl Type {
    /// The universe type.
    pub fn universe() -> (r: Type)
        ensures
            r == Type(Value::Universe),
    {
        Type(Value::Universe)
    }

    /// Marks a value as denoting a type.
    pub fn create_type_from_value(value: Value) -> (r: Type)
        ensures
            r == Type(value),
    {
        Type(value)
    }

    /// The underlying value.
    pub fn value(&self) -> (r: &Value)
        ensures
            *r == self.0,
    {
        &self.0
    }

    /// The human-readable rendering of the type: that of the value
    /// denoting it.
    pub open spec fn display_spec(self) -> Seq<char> {
        self.0.display_spec()
    }

    /// Renders the type for diagnostics.
    pub fn display_string(&self) -> (r: String)
        ensures
            r@ == self.display_spec(),
    {
        self.0.display_string()
    }
}

impl From<Type> for Value {
    fn from(t: Type) -> (r: Value) {
        t.0
    }
}

impl vstd::std_specs::convert::FromSpecImpl<Type> for Value {
    open spec fn obeys_from_spec() -> bool {
        true
    }

    open spec fn from_spec(t: Type) -> Value {
        t.0
    }
}

/// A value together with its type, as stored in the global definitions.
#[derive(Debug)]
pub struct TypedValue {
    pub type_: Type,
    pub val: Value,
}

impl Value {
    /// The human-readable rendering of the value: a Pi value with its
    /// closure's binder and unevaluated body, a lambda likewise, `U`
    /// for the universe, and a neutral term as its spine.
    pub open spec fn display_spec(self) -> Seq<char>
        decreases self,
    {
        match self {
            Value::PiType { param_type, tclosure } => "\u{220F}("@
                + tclosure.param.display_spec() + " : "@ + (*param_type).0.display_spec() + ")"@
                + tclosure.body.display_spec(),
            Value::Lambda { closure } => "\u{03BB}("@ + closure.param.display_spec() + ")"@
                + closure.body.display_spec(),
            Value::Universe => "U"@,
            Value::Neutral { neu } => neu.display_spec(),
        }
    }

    /// Renders the value for diagnostics.
    pub fn display_string(&self) -> (r: String)
        ensures
            r@ == self.display_spec(),
        decreases *self,
    {
        match self {
            Value::PiType { param_type, tclosure } => {
                let mut s = String::from_str("\u{220F}(");
                s.append(tclosure.param.display_string().as_str());
                s.append(" : ");
                s.append(param_type.0.display_string().as_str());
                s.append(")");
                s.append(tclosure.body.display_string().as_str());
                proof {
                    assert(s@ =~= self.display_spec());
                }
                s
            },
            Value::Lambda { closure } => {
                let mut s = String::from_str("\u{03BB}(");
                s.append(closure.param.display_string().as_str());
                s.append(")");
                s.append(closure.body.display_string().as_str());
                proof {
                    assert(s@ =~= self.display_spec());
                }
                s
            },
            Value::Universe => String::from_str("U"),
            Value::Neutral { neu } => neu.display_string(),
        }
    }
}

impl Neutral {
    /// The human-readable rendering of a neutral term: the head
    /// variable with each recorded application around it.
    pub open spec fn display_spec(self) -> Seq<char>
        decreases self,
    {
        match self {
            Neutral::Variable(id) => id.display_spec(),
            Neutral::Application { func, arg } => "("@ + func.display_spec() + ")("@
                + arg.display_spec() + ")"@,
        }
    }

    /// Renders the neutral term for diagnostics.
    pub fn display_string(&self) -> (r: String)
        ensures
            r@ == self.display_spec(),
        decreases *self,
    {
        match self {
            Neutral::Variable(id) => id.display_string(),
            Neutral::Application { func, arg } => {
                let mut s = String::from_str("(");
                s.append(func.display_string().as_str());
                s.append(")(");
                s.append(arg.display_string().as_str());
                s.append(")");
                proof {
                    assert(s@ =~= self.display_spec());
                }
                s
            },
        }
    }
}

impl Clone for Value {
    fn clone(&self) -> (r: Self)
        ensures
            r == *self,
    {
        clone_value(self)
    }
}

impl Clone for Neutral {
    fn clone(&self) -> (r: Self)
        ensures
            r == *self,
    {
        clone_neutral(self)
    }
}

impl Clone for Type {
    fn clone(&self) -> (r: Self)
        ensures
            r == *self,
    {
        clone_type(self)
    }
}

/// Copies a value; the copy equals the original.
pub fn clone_value(v: &Value) -> (r: Value)
    ensures
        r == *v,
    decreases *v,
{
    match v {
        Value::PiType { param_type, tclosure } => Value::PiType {
            param_type: Box::new(clone_type(param_type)),
            tclosure: clone_closure(tclosure),
        },
        Value::Lambda { closure } => Value::Lambda { closure: clone_closure(closure) },
        Value::Universe => Value::Universe,
        Value::Neutral { neu } => Value::Neutral { neu: clone_neutral(neu) },
    }
}

/// Copies a neutral term; the copy equals the original.
pub fn clone_neutral(n: &Neutral) -> (r: Neutral)
    ensures
        r == *n,
    decreases *n,
{
    match n {
        Neutral::Variable(id) => Neutral::Variable(*id),
        Neutral::Application { func, arg } => Neutral::Application {
            func: Box::new(clone_neutral(func)),
            arg: Box::new(clone_value(arg)),
        },
    }
}

/// Copies a type; the copy equals the original.
pub fn clone_type(t: &Type) -> (r: Type)
    ensures
        r == *t,
    decreases *t,
{
    Type(clone_value(&t.0))
}

} // verus!
