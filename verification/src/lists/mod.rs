//! Persistent name-indexed lists: typing contexts and the binder stacks
//! used by alpha-equivalence.

pub mod list;

use vstd::prelude::*;

use vstd::string::StringExecFns;

use crate::dictionaries::Definitions;
use crate::identifier::Identifier;
use crate::lists::list::LookupList;
use crate::type_error::TypeError;
use crate::type_error::TypeErrorKind;
use crate::value::clone_type;
use crate::value::Type;

verus! {

/// A typing context: an ordered association of bound variables to their
/// types, innermost binding first.
#[derive(Debug)]
pub struct Context(pub LookupList<Type>);

impl Context {
    /// The empty context.
    pub fn empty() -> (r: Context)
        ensures
            r == Context(LookupList::<Type>::Empty),
    {
        Context(LookupList::Empty)
    }

    /// The type bound to `id` in the context, innermost binding first.
    pub open spec fn spec_lookup(self, id: Identifier) -> Option<Type> {
        self.0.spec_get(id)
    }

    /// The names bound in the context, innermost first.
    pub open spec fn names_seq(self) -> Seq<Identifier> {
        self.0.names_seq()
    }

    /// The context extended with a new innermost variable.
    pub fn extend(&self, var: &Identifier, val: &Type) -> (r: Context)
        ensures
            r == ctx_extend_spec(*self, *var, *val),
    {
        Context(
            LookupList::Extend {
                var: *var,
                val: clone_type(val),
                parent: Box::new(clone_type_list(&self.0)),
            },
        )
    }

    /// The names of the variables bound in the context, innermost first.
    pub fn names(&self) -> (r: Vec<Identifier>)
        ensures
            r@ == self.names_seq(),
    {
        self.0.names()
    }

    /// The type of a context variable.
    pub fn lookup_type(&self, id: &Identifier) -> (r: Result<&Type, TypeError>)
        ensures
            match r {
                Ok(t) => self.spec_lookup(*id) == Some(*t),
                Err(e) => self.spec_lookup(*id) is None && e.kind
                    == TypeErrorKind::VariableNotFound,
            },
    {
        self.0.get(id)
    }

    /// Checks whether a variable is declared in the context.
    pub fn contains(&self, id: &Identifier) -> (r: Result<(), TypeError>)
        ensures
            match r {
                Ok(u) => self.spec_lookup(*id) is Some,
                Err(e) => self.spec_lookup(*id) is None && e.kind
                    == TypeErrorKind::VariableNotFound,
            },
    {
        match self.0.get(id) {
            Ok(t) => Ok(()),
            Err(e) => Err(e),
        }
    }
}

/// The context extended with a new innermost binding.
pub open spec fn ctx_extend_spec(ctx: Context, var: Identifier, val: Type) -> Context {
    Context(LookupList::Extend { var, val, parent: Box::new(ctx.0) })
}

/// The rendering of the bindings before the innermost one: each as
/// `name : type` followed by a comma, outermost first.
pub open spec fn ctx_display_helper_spec(l: LookupList<Type>) -> Seq<char>
    decreases l,
{
    match l {
        LookupList::Empty => Seq::empty(),
        LookupList::Extend { var, val, parent } => ctx_display_helper_spec(*parent)
            + var.display_spec() + " : "@ + val.display_spec() + ", "@,
    }
}

/// The rendering of a context: a middle dot when empty, else its
/// bindings as `name : type`, outermost first, comma-separated.
pub open spec fn ctx_display_spec(l: LookupList<Type>) -> Seq<char> {
    match l {
        LookupList::Empty => "\u{00B7}"@,
        LookupList::Extend { var, val, parent } => ctx_display_helper_spec(*parent)
            + var.display_spec() + " : "@ + val.display_spec(),
    }
}

/// Renders the bindings before the innermost one, outermost first.
fn ctx_display_helper(l: &LookupList<Type>, out: &mut String)
    ensures
        final(out)@ == old(out)@ + ctx_display_helper_spec(*l),
    decreases *l,
{
    match l {
        LookupList::Empty => {
            proof {
                assert(out@ =~= old(out)@ + ctx_display_helper_spec(*l));
            }
        },
        LookupList::Extend { var, val, parent } => {
            ctx_display_helper(parent, out);
            out.append(var.display_string().as_str());
            out.append(" : ");
            out.append(val.display_string().as_str());
            out.append(", ");
            proof {
                assert(out@ =~= old(out)@ + ctx_display_helper_spec(*l));
            }
        },
    }
}

impl Context {
    /// Renders the context for diagnostics.
    pub fn display_string(&self) -> (r: String)
        ensures
            r@ == ctx_display_spec(self.0),
    {
        match &self.0 {
            LookupList::Empty => String::from_str("\u{00B7}"),
            LookupList::Extend { var, val, parent } => {
                let mut out = String::new();
                ctx_display_helper(parent, &mut out);
                out.append(var.display_string().as_str());
                out.append(" : ");
                out.append(val.display_string().as_str());
                proof {
                    assert(out@ =~= ctx_display_spec(self.0));
                }
                out
            },
        }
    }
}

impl Clone for Context {
    fn clone(&self) -> (r: Self)
        ensures
            r == *self,
    {
        Context(clone_type_list(&self.0))
    }
}

/// Copies a list of typed bindings; the copy equals the original.
pub fn clone_type_list(l: &LookupList<Type>) -> (r: LookupList<Type>)
    ensures
        r == *l,
    decreases *l,
{
    match l {
        LookupList::Empty => LookupList::Empty,
        LookupList::Extend { var, val, parent } => LookupList::Extend {
            var: *var,
            val: clone_type(val),
            parent: Box::new(clone_type_list(parent)),
        },
    }
}

/// A binder stack for alpha-equivalence: names only, innermost first.
pub type Names = LookupList<()>;

impl LookupList<()> {
    /// The de-Bruijn-style index of `id`: its distance from the
    /// innermost binder of that name, if the stack binds it at all.
    pub open spec fn index_of_spec(self, id: Identifier) -> Option<nat>
        decreases self,
    {
        match self {
            LookupList::Empty => None,
            LookupList::Extend { var, val, parent } => if var == id {
                Some(0)
            } else {
                match parent.index_of_spec(id) {
                    Some(n) => Some(n + 1),
                    None => None,
                }
            },
        }
    }

    /// The de-Bruijn-style index of `id`, or the identifier itself
    /// where the stack does not bind it.
    pub fn index_of(&self, id: &Identifier) -> (r: Result<usize, Identifier>)
        ensures
            match r {
                Ok(i) => self.index_of_spec(*id) == Some(i as nat),
                Err(out) => self.index_of_spec(*id) is None && out == *id,
            },
    {
        let names = self.names();
        let mut i: usize = 0;
        while i < names.len()
            invariant
                i <= names@.len(),
                names@ == self.names_seq(),
                forall|j: int| 0 <= j < i ==> names@[j] != *id,
            decreases names@.len() - i,
        {
            if names[i] == *id {
                proof {
                    lemma_index_of_is_first_name(*self, *id);
                    if self.index_of_spec(*id) is None {
                        assert(names@[i as int] != *id);
                    } else {
                        let k = self.index_of_spec(*id).unwrap();
                        if k < i as nat {
                            assert(names@[k as int] != *id);
                        }
                        if k > i as nat {
                            assert(names@[i as int] != *id);
                        }
                    }
                }
                return Ok(i);
            }
            i += 1;
        }
        proof {
            lemma_index_of_is_first_name(*self, *id);
            if self.index_of_spec(*id) is Some {
                let k = self.index_of_spec(*id).unwrap();
                assert(names@[k as int] != *id);
            }
        }
        Err(*id)
    }

    /// The stack extended with a new innermost binder.
    pub fn extend_names(&self, var: &Identifier) -> (r: LookupList<()>)
        ensures
            r == (LookupList::Extend { var: *var, val: (), parent: Box::new(*self) }),
    {
        LookupList::Extend { var: *var, val: (), parent: Box::new(clone_names(self)) }
    }
}

/// A binder stack indexes `id` at the first position of its name
/// sequence that holds `id`, and not at all where no position does.
proof fn lemma_index_of_is_first_name(ns: Names, id: Identifier)
    ensures
        match ns.index_of_spec(id) {
            Some(i) => i < ns.names_seq().len() && ns.names_seq()[i as int] == id && forall|
                j: int,
            |
                0 <= j < i ==> ns.names_seq()[j] != id,
            None => forall|j: int| 0 <= j < ns.names_seq().len() ==> ns.names_seq()[j] != id,
        },
    decreases ns,
{
    match ns {
        LookupList::Empty => {},
        LookupList::Extend { var, val, parent } => {
            lemma_index_of_is_first_name(*parent, id);
            let s = ns.names_seq();
            assert(s == seq![var] + parent.names_seq());
            assert(s[0] == var);
            assert forall|j: int| 1 <= j < s.len() implies s[j] == parent.names_seq()[j - 1] by {
                assert(s[j] == (seq![var] + parent.names_seq())[j]);
            }
        },
    }
}

/// Copies a binder stack; the copy equals the original.
fn clone_names(l: &LookupList<()>) -> (r: LookupList<()>)
    ensures
        r == *l,
    decreases *l,
{
    match l {
        LookupList::Empty => LookupList::Empty,
        LookupList::Extend { var, val, parent } => LookupList::Extend {
            var: *var,
            val: (),
            parent: Box::new(clone_names(parent)),
        },
    }
}

/// The type of a variable: looked up in the context first, then among
/// the global definitions.
pub open spec fn type_var_spec(defs: Definitions, ctx: Context, id: Identifier) -> Option<Type> {
    match ctx.spec_lookup(id) {
        Some(t) => Some(t),
        None => defs.lookup_type_spec(id),
    }
}

/// Determines the [`Type`] of a variable.
pub fn type_var<'a>(defs: &'a Definitions, ctx: &'a Context, var: &Identifier) -> (r: Result<
    &'a Type,
    TypeError,
>)
    ensures
        match r {
            Ok(t) => type_var_spec(*defs, *ctx, *var) == Some(*t),
            Err(e) => type_var_spec(*defs, *ctx, *var) is None && e.kind
                == TypeErrorKind::VariableNotFound,
        },
{
    match ctx.lookup_type(var) {
        Ok(t) => Ok(t),
        Err(e) => defs.lookup_type(var),
    }
}

} // verus!
