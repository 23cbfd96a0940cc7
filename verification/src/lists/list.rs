use vstd::prelude::*;

use crate::identifier::Identifier;
use crate::type_error::TypeError;
use crate::type_error::TypeErrorKind;

verus! {

/// A persistent association list from variable names to `T`, innermost
/// binding first; shadowing is resolved by first match, and extension
/// never mutates the parent list.
#[derive(Debug)]
pub enum LookupList<T> {
    Empty,
    Extend { var: Identifier, val: T, parent: Box<LookupList<T>> },
}

impl<T> LookupList<T> {
    /// The value bound to `id`, innermost binding first.
    pub open spec fn spec_get(self, id: Identifier) -> Option<T>
        decreases self,
    {
        match self {
            LookupList::Empty => None,
            LookupList::Extend { var, val, parent } => if var == id {
                Some(val)
            } else {
                parent.spec_get(id)
            },
        }
    }

    /// The bound names, innermost first, repetitions kept.
    pub open spec fn names_seq(self) -> Seq<Identifier>
        decreases self,
    {
        match self {
            LookupList::Empty => Seq::empty(),
            LookupList::Extend { var, val, parent } => seq![var] + parent.names_seq(),
        }
    }

    /// The list extended with a new innermost binding.
    pub fn extend_list(self, var: Identifier, val: T) -> (r: LookupList<T>)
        ensures
            r == (LookupList::Extend { var, val, parent: Box::new(self) }),
    {
        LookupList::Extend { var, val, parent: Box::new(self) }
    }

    /// The bound names, innermost first.
    pub fn names(&self) -> (r: Vec<Identifier>)
        ensures
            r@ == self.names_seq(),
        decreases *self,
    {
        match self {
            LookupList::Empty => Vec::new(),
            LookupList::Extend { var, val, parent } => {
                let mut rest = parent.names();
                rest.insert(0, *var);
                proof {
                    assert(rest@ =~= self.names_seq());
                }
                rest
            },
        }
    }

    /// Looks up `id`, innermost binding first.
    pub fn get(&self, id: &Identifier) -> (r: Result<&T, TypeError>)
        ensures
            match r {
                Ok(v) => self.spec_get(*id) == Some(*v),
                Err(e) => self.spec_get(*id) is None && e.kind == TypeErrorKind::VariableNotFound,
            },
        decreases *self,
    {
        match self {
            LookupList::Empty => Err(TypeError { kind: TypeErrorKind::VariableNotFound }),
            LookupList::Extend { var, val, parent } => if *var == *id {
                Ok(val)
            } else {
                parent.get(id)
            },
        }
    }
}

/// A cursor over a [`LookupList`], yielding bindings innermost first.
#[derive(Clone, Copy)]
pub struct LookupListIterator<'a, T> {
    pub ptr: &'a LookupList<T>,
}

impl<'a, T> LookupListIterator<'a, T> {
    /// A cursor positioned at the innermost binding of `list`.
    pub fn new(list: &'a LookupList<T>) -> (r: LookupListIterator<'a, T>)
        ensures
            r.ptr == list,
    {
        LookupListIterator { ptr: list }
    }

    /// The binding under the cursor, stepping the cursor outward; or
    /// nothing, once the list is exhausted.
    pub fn next(&mut self) -> (r: Option<(&'a Identifier, &'a T)>)
        ensures
            match *old(self).ptr {
                LookupList::Empty => r is None && final(self).ptr == old(self).ptr,
                LookupList::Extend { var, val, parent } => {
                    &&& r matches Some(p)
                    &&& *p.0 == var
                    &&& *p.1 == val
                    &&& *final(self).ptr == *parent
                },
            },
    {
        match self.ptr {
            LookupList::Empty => None,
            LookupList::Extend { var, val, parent } => {
                self.ptr = parent;
                Some((var, val))
            },
        }
    }
}

} // verus!
