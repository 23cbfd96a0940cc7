//! Global definitions, evaluation environments and closures.

pub mod dictionary;

use vstd::prelude::*;

use crate::dictionaries::dictionary::Dictionary;
use crate::evaluation::closure_call_spec;
use crate::evaluation::evaluate;
use crate::expression::clone_expression;
use crate::expression::Expression;
use crate::identifier::Identifier;
use crate::lists::list::LookupList;
use crate::lists::Context;
use crate::type_error::TypeError;
use crate::type_error::TypeErrorKind;
use crate::value::clone_value;
use crate::value::Neutral;
use crate::value::Type;
use crate::value::TypedValue;
use crate::value::Value;

verus! {

/// A record of global definitions: each name bound to a type and a
/// value, immutable for the duration of a checking session.
#[derive(Debug)]
pub struct Definitions(pub Dictionary<TypedValue>);

impl Definitions {
    /// The definition stored for `id`.
    pub open spec fn spec_lookup(self, id: Identifier) -> Option<TypedValue> {
        self.0.spec_get(id)
    }

    /// The type stored for `id`.
    pub open spec fn lookup_type_spec(self, id: Identifier) -> Option<Type> {
        match self.spec_lookup(id) {
            Some(tv) => Some(tv.type_),
            None => None,
        }
    }

    /// The value stored for `id`.
    pub open spec fn lookup_value_spec(self, id: Identifier) -> Option<Value> {
        match self.spec_lookup(id) {
            Some(tv) => Some(tv.val),
            None => None,
        }
    }

    /// The defined names, in entry order.
    pub open spec fn names_seq(self) -> Seq<Identifier> {
        self.0.names_seq()
    }

    /// An empty record of definitions.
    pub fn new() -> (r: Definitions)
        ensures
            r.0.entries@ == Seq::<(Identifier, TypedValue)>::empty(),
            forall|id: Identifier| r.spec_lookup(id) is None,
            r.names_seq() == Seq::<Identifier>::empty(),
    {
        let r = Definitions(Dictionary { entries: Vec::new() });
        proof {
            assert(r.names_seq() =~= Seq::<Identifier>::empty());
        }
        r
    }

    /// The record extended with a definition of `id`, shadowing any
    /// earlier definition of that name.
    pub fn insert(self, id: Identifier, type_: Type, val: Value) -> (r: Definitions)
        ensures
            r.spec_lookup(id) == Some((TypedValue { type_, val })),
            forall|x: Identifier| x != id ==> r.spec_lookup(x) == self.spec_lookup(x),
            r.names_seq() == seq![id] + self.names_seq(),
    {
        let ghost old_entries = self.0.entries@;
        let tv = TypedValue { type_: type_, val: val };
        let mut entries = self.0.entries;
        entries.insert(0, (id, tv));
        let r = Definitions(Dictionary { entries });
        proof {
            assert(r.0.entries@ =~= seq![(id, tv)] + old_entries);
            assert(r.0.entries@.drop_first() =~= old_entries);
            assert forall|x: Identifier| x != id implies r.spec_lookup(x) == self.spec_lookup(
                x,
            ) by {
                assert(r.0.entries@[0].0 != x);
            }
            assert(r.names_seq() =~= seq![id] + self.names_seq());
        }
        r
    }

    /// The defined names, in entry order.
    pub fn names(&self) -> (r: Vec<Identifier>)
        ensures
            r@ == self.names_seq(),
    {
        self.0.names()
    }

    /// Determines the [`Type`] of a globally-defined item.
    pub fn lookup_type(&self, id: &Identifier) -> (r: Result<&Type, TypeError>)
        ensures
            match r {
                Ok(t) => self.lookup_type_spec(*id) == Some(*t),
                Err(e) => self.lookup_type_spec(*id) is None && e.kind
                    == TypeErrorKind::VariableNotFound,
            },
    {
        match self.0.get(id) {
            Ok(tv) => Ok(&tv.type_),
            Err(e) => Err(e),
        }
    }

    /// Determines the [`Value`] of a globally-defined item.
    pub fn lookup_value(&self, id: &Identifier) -> (r: Result<&Value, TypeError>)
        ensures
            match r {
                Ok(v) => self.lookup_value_spec(*id) == Some(*v),
                Err(e) => self.lookup_value_spec(*id) is None && e.kind
                    == TypeErrorKind::VariableNotFound,
            },
    {
        match self.0.get(id) {
            Ok(tv) => Ok(&tv.val),
            Err(e) => Err(e),
        }
    }
}

/// A flattened evaluation environment: the full snapshot of bindings a
/// closure captures, innermost binding first.
#[derive(Debug)]
pub enum FlatEnvironment {
    Empty,
    Extend { var: Identifier, val: Box<Value>, parent: Box<FlatEnvironment> },
}

impl FlatEnvironment {
    /// The value bound to `id`, innermost binding first.
    pub open spec fn lookup_spec(self, id: Identifier) -> Option<Value>
        decreases self,
    {
        match self {
            FlatEnvironment::Empty => None,
            FlatEnvironment::Extend { var, val, parent } => if var == id {
                Some(*val)
            } else {
                parent.lookup_spec(id)
            },
        }
    }

    /// The bound names, innermost first, repetitions kept.
    pub open spec fn names_seq(self) -> Seq<Identifier>
        decreases self,
    {
        match self {
            FlatEnvironment::Empty => Seq::empty(),
            FlatEnvironment::Extend { var, val, parent } => seq![var] + parent.names_seq(),
        }
    }

    /// The bound names, innermost first.
    pub fn names(&self) -> (r: Vec<Identifier>)
        ensures
            r@ == self.names_seq(),
        decreases *self,
    {
        match self {
            FlatEnvironment::Empty => Vec::new(),
            FlatEnvironment::Extend { var, val, parent } => {
                let mut rest = parent.names();
                rest.insert(0, *var);
                proof {
                    assert(rest@ =~= self.names_seq());
                }
                rest
            },
        }
    }

    /// The value bound to `id`, or a variable-not-found error.
    pub fn lookup_value(&self, id: &Identifier) -> (r: Result<Value, TypeError>)
        ensures
            match r {
                Ok(v) => self.lookup_spec(*id) == Some(v),
                Err(e) => self.lookup_spec(*id) is None && e.kind
                    == TypeErrorKind::VariableNotFound,
            },
        decreases *self,
    {
        match self {
            FlatEnvironment::Empty => Err(TypeError { kind: TypeErrorKind::VariableNotFound }),
            FlatEnvironment::Extend { var, val, parent } => if *var == *id {
                Ok(clone_value(val))
            } else {
                parent.lookup_value(id)
            },
        }
    }
}

/// Copies a flattened environment; the copy equals the original.
pub fn clone_flat_environment(fe: &FlatEnvironment) -> (r: FlatEnvironment)
    ensures
        r == *fe,
    decreases *fe,
{
    match fe {
        FlatEnvironment::Empty => FlatEnvironment::Empty,
        FlatEnvironment::Extend { var, val, parent } => FlatEnvironment::Extend {
            var: *var,
            val: Box::new(clone_value(val)),
            parent: Box::new(clone_flat_environment(parent)),
        },
    }
}

/// The flattening of a context: every declared variable bound to itself
/// as a neutral variable.
pub open spec fn ctx_to_flat(l: LookupList<Type>) -> FlatEnvironment
    decreases l,
{
    match l {
        LookupList::Empty => FlatEnvironment::Empty,
        LookupList::Extend { var, val, parent } => FlatEnvironment::Extend {
            var,
            val: Box::new(Value::Neutral { neu: Neutral::Variable(var) }),
            parent: Box::new(ctx_to_flat(*parent)),
        },
    }
}

/// Flattens a context into an environment of neutral variables.
fn ctx_list_to_flat(l: &LookupList<Type>) -> (r: FlatEnvironment)
    ensures
        r == ctx_to_flat(*l),
    decreases *l,
{
    match l {
        LookupList::Empty => FlatEnvironment::Empty,
        LookupList::Extend { var, val, parent } => FlatEnvironment::Extend {
            var: *var,
            val: Box::new(Value::Neutral { neu: Neutral::Variable(*var) }),
            parent: Box::new(ctx_list_to_flat(parent)),
        },
    }
}

/// An assignment of [`Value`]s to variables during evaluation: either
/// derived from a typing context, in which every declared variable
/// evaluates to itself as a neutral variable, or a flattened
/// environment extended with one binding, as used inside closure calls.
#[derive(Debug)]
pub enum Environment {
    FromContext { ctx: Context },
    Extend { parent: FlatEnvironment, var: Identifier, val: Box<Value> },
}

impl Environment {
    /// The empty environment.
    pub fn empty() -> (r: Environment)
        ensures
            r == (Environment::FromContext { ctx: Context(LookupList::<Type>::Empty) }),
    {
        Environment::FromContext { ctx: Context::empty() }
    }

    /// Creates an environment from a [`Context`] by mapping each
    /// declared variable to itself as a neutral variable.
    pub fn from_context(ctx: &Context) -> (r: Environment)
        ensures
            r == (Environment::FromContext { ctx: *ctx }),
    {
        Environment::FromContext { ctx: ctx.clone() }
    }

    /// A flattened environment extended with one binding.
    pub(crate) fn extend(parent: &FlatEnvironment, var: &Identifier, val: &Value) -> (r:
        Environment)
        ensures
            r == (Environment::Extend {
                parent: *parent,
                var: *var,
                val: Box::new(*val),
            }),
    {
        Environment::Extend {
            parent: clone_flat_environment(parent),
            var: *var,
            val: Box::new(clone_value(val)),
        }
    }

    /// The value of `id` under the environment: the local extension
    /// first, then the captured environment; a context-derived
    /// environment maps each declared variable to itself as a neutral
    /// variable.
    pub open spec fn lookup_spec(self, id: Identifier) -> Option<Value> {
        match self {
            Environment::FromContext { ctx } => if ctx.spec_lookup(id) is Some {
                Some(Value::Neutral { neu: Neutral::Variable(id) })
            } else {
                None
            },
            Environment::Extend { parent, var, val } => if var == id {
                Some(*val)
            } else {
                parent.lookup_spec(id)
            },
        }
    }

    /// The value of `id`, or a variable-not-found error.
    pub fn lookup_value(&self, id: &Identifier) -> (r: Result<Value, TypeError>)
        ensures
            match r {
                Ok(v) => self.lookup_spec(*id) == Some(v),
                Err(e) => self.lookup_spec(*id) is None && e.kind
                    == TypeErrorKind::VariableNotFound,
            },
    {
        match self {
            Environment::FromContext { ctx } => match ctx.contains(id) {
                Ok(u) => Ok(Value::Neutral { neu: Neutral::Variable(*id) }),
                Err(e) => Err(e),
            },
            Environment::Extend { parent, var, val } => if *var == *id {
                Ok(clone_value(val))
            } else {
                parent.lookup_value(id)
            },
        }
    }

    /// The flattened snapshot of the environment.
    pub open spec fn to_flat_spec(self) -> FlatEnvironment {
        match self {
            Environment::FromContext { ctx } => ctx_to_flat(ctx.0),
            Environment::Extend { parent, var, val } => FlatEnvironment::Extend {
                var,
                val,
                parent: Box::new(parent),
            },
        }
    }

    /// Flattens the environment into a closure-capturable snapshot.
    pub fn to_flat_environment(&self) -> (r: FlatEnvironment)
        ensures
            r == self.to_flat_spec(),
    {
        match self {
            Environment::FromContext { ctx } => ctx_list_to_flat(&ctx.0),
            Environment::Extend { parent, var, val } => FlatEnvironment::Extend {
                var: *var,
                val: Box::new(clone_value(val)),
                parent: Box::new(clone_flat_environment(parent)),
            },
        }
    }
}

/// The value of a variable: the environment first, then the global
/// definitions.
pub open spec fn evaluate_var_spec(defs: Definitions, env: Environment, id: Identifier) -> Result<
    Value,
    TypeError,
> {
    match env.lookup_spec(id) {
        Some(v) => Ok(v),
        None => match defs.lookup_value_spec(id) {
            Some(v) => Ok(v),
            None => Err(TypeError { kind: TypeErrorKind::VariableNotFound }),
        },
    }
}

/// Determines the [`Value`] of a variable.
pub fn evaluate_var(defs: &Definitions, env: &Environment, var: &Identifier) -> (r: Result<
    Value,
    TypeError,
>)
    ensures
        r == evaluate_var_spec(*defs, *env, *var),
{
    match env.lookup_value(var) {
        Ok(v) => Ok(v),
        Err(e) => match defs.lookup_value(var) {
            Ok(v) => Ok(clone_value(v)),
            Err(e2) => Err(e2),
        },
    }
}

/// A [`Value`] which depends on an argument, and captures a flattened
/// snapshot of the [`Environment`] in which it was created.
#[derive(Debug)]
pub struct Closure {
    pub env: FlatEnvironment,
    pub param: Identifier,
    pub body: Expression,
}

impl Closure {
    /// The names captured by the closure's environment.
    pub open spec fn names_seq(self) -> Seq<Identifier> {
        self.env.names_seq()
    }

    /// Creates a closure, capturing a flattened snapshot of the
    /// environment.
    pub fn new_in_env(env: &Environment, param: Identifier, body: Expression) -> (r: Closure)
        ensures
            r == (Closure { env: env.to_flat_spec(), param, body }),
    {
        Closure { env: env.to_flat_environment(), param, body }
    }

    /// Creates a closure, capturing the context.
    pub fn new_in_ctx(ctx: &Context, param: Identifier, body: Expression) -> (r: Closure)
        ensures
            r == (Closure { env: ctx_to_flat(ctx.0), param, body }),
    {
        Closure::new_in_env(&Environment::from_context(ctx), param, body)
    }

    /// The names captured by the closure's environment.
    pub fn names(&self) -> (r: Vec<Identifier>)
        ensures
            r@ == self.names_seq(),
    {
        self.env.names()
    }

    /// Calls the closure on an argument: evaluates the body in the
    /// captured snapshot extended with the parameter binding.
    pub fn call(&self, defs: &Definitions, val: &Value, fuel: u64) -> (r: Result<Value, TypeError>)
        ensures
            r == closure_call_spec(*defs, *self, *val, fuel as nat),
        decreases fuel,
    {
        if fuel == 0 {
            return Err(TypeError { kind: TypeErrorKind::OutOfFuel });
        }
        evaluate(defs, &Environment::extend(&self.env, &self.param, val), &self.body, fuel - 1)
    }
}

/// Copies a closure; the copy equals the original.
pub fn clone_closure(c: &Closure) -> (r: Closure)
    ensures
        r == *c,
    decreases *c,
{
    Closure {
        env: clone_flat_environment(&c.env),
        param: c.param,
        body: clone_expression(&c.body),
    }
}

} // verus!
