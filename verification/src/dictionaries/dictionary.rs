use vstd::prelude::*;

use crate::identifier::Identifier;
use crate::type_error::TypeError;
use crate::type_error::TypeErrorKind;

verus! {

/// An association of names to entries; an earlier entry shadows a later
/// one of the same name.
#[derive(Debug)]
pub struct Dictionary<T> {
    pub entries: Vec<(Identifier, T)>,
}

/// The entry for `id` in `entries`, earliest match first.
pub open spec fn assoc_get<T>(entries: Seq<(Identifier, T)>, id: Identifier) -> Option<T>
    decreases entries.len(),
{
    if entries.len() == 0 {
        None
    } else if entries[0].0 == id {
        Some(entries[0].1)
    } else {
        assoc_get(entries.drop_first(), id)
    }
}

impl<T> Dictionary<T> {
    /// The entry stored for `id`.
    pub open spec fn spec_get(self, id: Identifier) -> Option<T> {
        assoc_get(self.entries@, id)
    }

    /// The stored names, in entry order.
    pub open spec fn names_seq(self) -> Seq<Identifier> {
        self.entries@.map_values(|p: (Identifier, T)| p.0)
    }

    /// The entry for `id`, or a variable-not-found error.
    pub fn get(&self, id: &Identifier) -> (r: Result<&T, TypeError>)
        ensures
            match r {
                Ok(v) => self.spec_get(*id) == Some(*v),
                Err(e) => self.spec_get(*id) is None && e.kind == TypeErrorKind::VariableNotFound,
            },
    {
        let mut i: usize = 0;
        proof {
            assert(self.entries@.skip(0) =~= self.entries@);
        }
        while i < self.entries.len()
            invariant
                i <= self.entries@.len(),
                assoc_get(self.entries@.skip(i as int), *id) == assoc_get(self.entries@, *id),
            decreases self.entries@.len() - i,
        {
            if self.entries[i].0 == *id {
                proof {
                    assert(self.entries@.skip(i as int)[0] == self.entries@[i as int]);
                }
                return Ok(&self.entries[i].1);
            }
            proof {
                assert(self.entries@.skip(i as int)[0] == self.entries@[i as int]);
                assert(self.entries@.skip(i as int).drop_first() =~= self.entries@.skip(
                    i as int + 1,
                ));
            }
            i += 1;
        }
        proof {
            assert(self.entries@.skip(i as int) =~= Seq::<(Identifier, T)>::empty());
        }
        Err(TypeError { kind: TypeErrorKind::VariableNotFound })
    }

    /// The stored names, in entry order.
    pub fn names(&self) -> (r: Vec<Identifier>)
        ensures
            r@ == self.names_seq(),
    {
        let mut r: Vec<Identifier> = Vec::new();
        let mut i: usize = 0;
        while i < self.entries.len()
            invariant
                i <= self.entries@.len(),
                r@.len() == i,
                forall|j: int| 0 <= j < i ==> r@[j] == self.entries@[j].0,
            decreases self.entries@.len() - i,
        {
            r.push(self.entries[i].0);
            i += 1;
        }
        proof {
            assert(r@ =~= self.names_seq());
        }
        r
    }
}

impl<T> Default for Dictionary<T> {
    fn default() -> (r: Self)
        ensures
            r.entries@ == Seq::<(Identifier, T)>::empty(),
    {
        Dictionary { entries: Vec::new() }
    }
}

} // verus!
