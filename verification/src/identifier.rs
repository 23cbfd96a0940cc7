use vstd::prelude::*;

use vstd::string::StringExecFns;

use crate::dictionaries::Closure;
use crate::dictionaries::Definitions;
use crate::lists::Context;
use crate::min_excluded::min_excluded;
use crate::min_excluded::spec_min_excluded;

verus! {

/// The name of a variable: a bare numeric key with no inherent scope.
#[derive(Clone, Copy, PartialEq, Eq, Structural, Hash, Debug)]
pub struct Identifier {
    pub name: usize,
}

/// The decimal digit `d` as text, for digits zero through nine.
pub open spec fn digit_str(d: nat) -> Seq<char> {
    if d == 0 {
        "0"@
    } else if d == 1 {
        "1"@
    } else if d == 2 {
        "2"@
    } else if d == 3 {
        "3"@
    } else if d == 4 {
        "4"@
    } else if d == 5 {
        "5"@
    } else if d == 6 {
        "6"@
    } else if d == 7 {
        "7"@
    } else if d == 8 {
        "8"@
    } else {
        "9"@
    }
}

/// The decimal rendering of `n`, most significant digit first.
pub open spec fn decimal_digits_spec(n: nat) -> Seq<char>
    decreases n,
{
    if n < 10 {
        digit_str(n)
    } else {
        decimal_digits_spec(n / 10) + digit_str(n % 10)
    }
}

/// Appends the decimal rendering of `n` to `s`.
fn push_decimal(s: &mut String, n: usize)
    ensures
        final(s)@ == old(s)@ + decimal_digits_spec(n as nat),
    decreases n,
{
    if n >= 10 {
        push_decimal(s, n / 10);
    }
    let d: usize = n % 10;
    if d == 0 {
        s.append("0");
    } else if d == 1 {
        s.append("1");
    } else if d == 2 {
        s.append("2");
    } else if d == 3 {
        s.append("3");
    } else if d == 4 {
        s.append("4");
    } else if d == 5 {
        s.append("5");
    } else if d == 6 {
        s.append("6");
    } else if d == 7 {
        s.append("7");
    } else if d == 8 {
        s.append("8");
    } else {
        s.append("9");
    }
    proof {
        assert(s@ =~= old(s)@ + decimal_digits_spec(n as nat));
    }
}

impl Identifier {
    /// The human-readable rendering of the identifier: the letter `a`
    /// followed by its numeric key in decimal.
    pub open spec fn display_spec(self) -> Seq<char> {
        "a"@ + decimal_digits_spec(self.name as nat)
    }

    /// Renders the identifier for diagnostics.
    pub fn display_string(&self) -> (r: String)
        ensures
            r@ == self.display_spec(),
    {
        let mut s = String::from_str("a");
        push_decimal(&mut s, self.name);
        s
    }
}

/// The keys drawn on by [`fresh_identifier`]: every name visible in the
/// definitions, the context, and the closure's captured environment.
pub open spec fn visible_keys(defs: Definitions, ctx: Context, closure: Closure) -> Seq<usize> {
    defs.names_seq().map_values(|x: Identifier| x.name) + ctx.names_seq().map_values(
        |x: Identifier| x.name,
    ) + closure.names_seq().map_values(|x: Identifier| x.name)
}

/// The identifier chosen by [`fresh_identifier`]: the least numeric key
/// not visible in the given definitions, context and closure.
pub open spec fn fresh_spec(defs: Definitions, ctx: Context, closure: Closure) -> Identifier {
    Identifier { name: spec_min_excluded(visible_keys(defs, ctx, closure)) }
}

/// Capture avoidance: the identifier that fresh-name generation
/// denotes — and so every fresh binder that read-back opens — is
/// distinct from every name visible in the definitions, the context
/// and the closure's captured environment, whenever those names are
/// fewer than `usize` has values, as any in-memory collection's are.
pub proof fn lemma_fresh_spec_avoids_visible_names(
    defs: Definitions,
    ctx: Context,
    closure: Closure,
)
    requires
        visible_keys(defs, ctx, closure).len() < usize::MAX,
    ensures
        !visible_keys(defs, ctx, closure).contains(fresh_spec(defs, ctx, closure).name),
        forall|id: Identifier|
            defs.names_seq().contains(id) ==> id != fresh_spec(defs, ctx, closure),
        forall|id: Identifier|
            ctx.names_seq().contains(id) ==> id != fresh_spec(defs, ctx, closure),
        forall|id: Identifier|
            closure.names_seq().contains(id) ==> id != fresh_spec(defs, ctx, closure),
{
    let keys = visible_keys(defs, ctx, closure);
    crate::min_excluded::lemma_min_excluded_exists(keys);
    let chosen = fresh_spec(defs, ctx, closure).name;
    assert forall|id: Identifier| defs.names_seq().contains(id) implies id.name != chosen by {
        let j = choose|j: int| 0 <= j < defs.names_seq().len() && defs.names_seq()[j] == id;
        assert(keys[j] == id.name);
    }
    assert forall|id: Identifier| ctx.names_seq().contains(id) implies id.name != chosen by {
        let j = choose|j: int| 0 <= j < ctx.names_seq().len() && ctx.names_seq()[j] == id;
        assert(keys[defs.names_seq().len() + j] == id.name);
    }
    assert forall|id: Identifier| closure.names_seq().contains(id) implies id.name != chosen by {
        let j = choose|j: int| 0 <= j < closure.names_seq().len() && closure.names_seq()[j] == id;
        assert(keys[defs.names_seq().len() + ctx.names_seq().len() + j] == id.name);
    }
}

/// Returns an identifier distinct from every name visible in `defs`,
/// `ctx`, and the environment captured by `closure`; deterministically,
/// the one with the least such numeric key.
pub fn fresh_identifier(defs: &Definitions, ctx: &Context, closure: &Closure) -> (r: Identifier)
    ensures
        r == fresh_spec(*defs, *ctx, *closure),
        !visible_keys(*defs, *ctx, *closure).contains(r.name),
        forall|id: Identifier| defs.names_seq().contains(id) ==> id != r,
        forall|id: Identifier| ctx.names_seq().contains(id) ==> id != r,
        forall|id: Identifier| closure.names_seq().contains(id) ==> id != r,
{
    let mut keys: Vec<usize> = Vec::new();
    push_keys(&mut keys, &defs.names());
    push_keys(&mut keys, &ctx.names());
    push_keys(&mut keys, &closure.names());
    proof {
        assert(keys@ =~= visible_keys(*defs, *ctx, *closure));
    }
    let chosen = min_excluded(&keys);
    proof {
        assert forall|id: Identifier| defs.names_seq().contains(id) implies id.name
            != chosen by {
            let j = choose|j: int|
                0 <= j < defs.names_seq().len() && defs.names_seq()[j] == id;
            assert(visible_keys(*defs, *ctx, *closure)[j] == id.name);
        }
        assert forall|id: Identifier| ctx.names_seq().contains(id) implies id.name != chosen by {
            let j = choose|j: int| 0 <= j < ctx.names_seq().len() && ctx.names_seq()[j] == id;
            assert(visible_keys(*defs, *ctx, *closure)[defs.names_seq().len() + j] == id.name);
        }
        assert forall|id: Identifier| closure.names_seq().contains(id) implies id.name
            != chosen by {
            let j = choose|j: int|
                0 <= j < closure.names_seq().len() && closure.names_seq()[j] == id;
            assert(visible_keys(*defs, *ctx, *closure)[defs.names_seq().len()
                + ctx.names_seq().len() + j] == id.name);
        }
    }
    Identifier { name: chosen }
}

/// Appends the numeric keys of `names` to `keys`, in order.
fn push_keys(keys: &mut Vec<usize>, names: &Vec<Identifier>)
    ensures
        final(keys)@ == old(keys)@ + names@.map_values(|x: Identifier| x.name),
{
    let ghost orig = keys@;
    let mut i: usize = 0;
    while i < names.len()
        invariant
            i <= names@.len(),
            keys@ == orig + names@.map_values(|x: Identifier| x.name).take(i as int),
        decreases names@.len() - i,
    {
        keys.push(names[i].name);
        proof {
            assert(names@.map_values(|x: Identifier| x.name).take(i + 1)
                =~= names@.map_values(|x: Identifier| x.name).take(i as int).push(
                names@[i as int].name,
            ));
        }
        i += 1;
    }
    proof {
        assert(names@.map_values(|x: Identifier| x.name).take(names@.len() as int)
            =~= names@.map_values(|x: Identifier| x.name));
    }
}

} // verus!
