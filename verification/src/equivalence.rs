//! Checking equivalence of terms: alpha-equivalence of expressions, and
//! judgmental equality of values decided by normalize-then-compare.

use vstd::prelude::*;

use crate::dictionaries::Definitions;
use crate::expression::Expression;
use crate::identifier::Identifier;
use crate::lists::list::LookupList;
use crate::lists::Context;
use crate::lists::Names;
use crate::read_back::read_back_typed;
use crate::read_back::read_back_typed_spec;
use crate::type_error::TypeError;
use crate::type_error::TypeErrorKind;
use crate::value::Type;
use crate::value::Value;

verus! {

/// Alpha-equivalence of `lhs` under the binder stack `lhs_names` with
/// `rhs` under `rhs_names`: a bound variable matches by its
/// de-Bruijn-style index, a free variable by raw identifier equality,
/// and the constructors must agree exactly, the optional lambda
/// annotation included.
pub open spec fn alpha_eq_spec(
    lhs_names: Names,
    lhs: Expression,
    rhs_names: Names,
    rhs: Expression,
) -> bool
    decreases lhs,
{
    match (lhs, rhs) {
        (Expression::Variable(lid), Expression::Variable(rid)) => match (
            lhs_names.index_of_spec(lid),
            rhs_names.index_of_spec(rid),
        ) {
            (Some(i), Some(j)) => i == j,
            (None, None) => lid == rid,
            _ => false,
        },
        (
            Expression::PiType { tparam: ltp, tparam_type: ltt, ret_type: lrt },
            Expression::PiType { tparam: rtp, tparam_type: rtt, ret_type: rrt },
        ) => alpha_eq_spec(lhs_names, *ltt, rhs_names, *rtt) && alpha_eq_spec(
            LookupList::Extend { var: ltp, val: (), parent: Box::new(lhs_names) },
            *lrt,
            LookupList::Extend { var: rtp, val: (), parent: Box::new(rhs_names) },
            *rrt,
        ),
        (
            Expression::Lambda { param: lp, param_type: lpt, ret_val: lrv },
            Expression::Lambda { param: rp, param_type: rpt, ret_val: rrv },
        ) => {
            let types_ok = match (lpt, rpt) {
                (Some(lt), Some(rt)) => alpha_eq_spec(lhs_names, *lt, rhs_names, *rt),
                (None, None) => true,
                _ => false,
            };
            types_ok && alpha_eq_spec(
                LookupList::Extend { var: lp, val: (), parent: Box::new(lhs_names) },
                *lrv,
                LookupList::Extend { var: rp, val: (), parent: Box::new(rhs_names) },
                *rrv,
            )
        },
        (
            Expression::Application { func: lf, arg: la },
            Expression::Application { func: rf, arg: ra },
        ) => alpha_eq_spec(lhs_names, *lf, rhs_names, *rf) && alpha_eq_spec(
            lhs_names,
            *la,
            rhs_names,
            *ra,
        ),
        (Expression::Universe, Expression::Universe) => true,
        (
            Expression::Annotation { expr: le, type_: lt },
            Expression::Annotation { expr: re, type_: rt },
        ) => alpha_eq_spec(lhs_names, *le, rhs_names, *re) && alpha_eq_spec(
            lhs_names,
            *lt,
            rhs_names,
            *rt,
        ),
        _ => false,
    }
}

/// Whether the two variables have the same de-Bruijn-style index on
/// their respective stacks, or are the same free variable.
fn same_binder_index(ln: &Names, lid: &Identifier, rn: &Names, rid: &Identifier) -> (b: bool)
    ensures
        b == (match (ln.index_of_spec(*lid), rn.index_of_spec(*rid)) {
            (Some(i), Some(j)) => i == j,
            (None, None) => lid == rid,
            _ => false,
        }),
    decreases *ln, *rn,
{
    match (ln, rn) {
        (LookupList::Empty, LookupList::Empty) => *lid == *rid,
        (
            LookupList::Extend { var: lv, parent: lp, .. },
            LookupList::Extend { var: rv, parent: rp, .. },
        ) => {
            let lhit = *lv == *lid;
            let rhit = *rv == *rid;
            if lhit && rhit {
                true
            } else if lhit || rhit {
                false
            } else {
                same_binder_index(lp, lid, rp, rid)
            }
        },
        (LookupList::Empty, LookupList::Extend { var: rv, parent: rp, .. }) => {
            if *rv == *rid {
                false
            } else {
                same_binder_index(ln, lid, rp, rid)
            }
        },
        (LookupList::Extend { var: lv, parent: lp, .. }, LookupList::Empty) => {
            if *lv == *lid {
                false
            } else {
                same_binder_index(lp, lid, rn, rid)
            }
        },
    }
}

/// Structural alpha-equivalence under a pair of binder stacks.
pub fn alpha_equiv_helper(
    lhs_names: &Names,
    lhs: &Expression,
    rhs_names: &Names,
    rhs: &Expression,
) -> (b: bool)
    ensures
        b == alpha_eq_spec(*lhs_names, *lhs, *rhs_names, *rhs),
    decreases *lhs,
{
    match (lhs, rhs) {
        (Expression::Variable(lid), Expression::Variable(rid)) => same_binder_index(
            lhs_names,
            lid,
            rhs_names,
            rid,
        ),
        (
            Expression::PiType { tparam: ltp, tparam_type: ltt, ret_type: lrt },
            Expression::PiType { tparam: rtp, tparam_type: rtt, ret_type: rrt },
        ) => {
            if alpha_equiv_helper(lhs_names, ltt, rhs_names, rtt) {
                let ln2 = lhs_names.extend_names(ltp);
                let rn2 = rhs_names.extend_names(rtp);
                alpha_equiv_helper(&ln2, lrt, &rn2, rrt)
            } else {
                false
            }
        },
        (
            Expression::Lambda { param: lp, param_type: lpt, ret_val: lrv },
            Expression::Lambda { param: rp, param_type: rpt, ret_val: rrv },
        ) => {
            let types_ok = match (lpt, rpt) {
                (Some(lt), Some(rt)) => alpha_equiv_helper(lhs_names, lt, rhs_names, rt),
                (None, None) => true,
                (Some(lt), None) => false,
                (None, Some(rt)) => false,
            };
            if types_ok {
                let ln2 = lhs_names.extend_names(lp);
                let rn2 = rhs_names.extend_names(rp);
                alpha_equiv_helper(&ln2, lrv, &rn2, rrv)
            } else {
                false
            }
        },
        (
            Expression::Application { func: lf, arg: la },
            Expression::Application { func: rf, arg: ra },
        ) => {
            if alpha_equiv_helper(lhs_names, lf, rhs_names, rf) {
                alpha_equiv_helper(lhs_names, la, rhs_names, ra)
            } else {
                false
            }
        },
        (Expression::Universe, Expression::Universe) => true,
        (
            Expression::Annotation { expr: le, type_: lt },
            Expression::Annotation { expr: re, type_: rt },
        ) => {
            if alpha_equiv_helper(lhs_names, le, rhs_names, re) {
                alpha_equiv_helper(lhs_names, lt, rhs_names, rt)
            } else {
                false
            }
        },
        _ => false,
    }
}

/// The result of the alpha-equivalence check on two closed-stack
/// expressions.
pub open spec fn alpha_equivalent_spec(lhs: Expression, rhs: Expression) -> Result<
    (),
    TypeError,
> {
    if alpha_eq_spec(LookupList::Empty, lhs, LookupList::Empty, rhs) {
        Ok(())
    } else {
        Err(TypeError { kind: TypeErrorKind::NotAlphaEquivalent })
    }
}

/// Checks alpha-equivalence of [`Expression`]s.
pub fn alpha_equivalent(lhs: &Expression, rhs: &Expression) -> (r: Result<(), TypeError>)
    ensures
        r == alpha_equivalent_spec(*lhs, *rhs),
        r is Ok <==> alpha_eq_spec(LookupList::Empty, *lhs, LookupList::Empty, *rhs),
{
    let ln: Names = LookupList::Empty;
    let rn: Names = LookupList::Empty;
    if alpha_equiv_helper(&ln, lhs, &rn, rhs) {
        Ok(())
    } else {
        Err(TypeError { kind: TypeErrorKind::NotAlphaEquivalent })
    }
}

/// Alpha-equivalence is reflexive: under identical binder stacks,
/// every expression is alpha-equivalent to itself.
pub proof fn lemma_alpha_eq_refl(ns: Names, e: Expression)
    ensures
        alpha_eq_spec(ns, e, ns, e),
    decreases e,
{
    match e {
        Expression::Variable(id) => {},
        Expression::PiType { tparam, tparam_type, ret_type } => {
            lemma_alpha_eq_refl(ns, *tparam_type);
            lemma_alpha_eq_refl(
                LookupList::Extend { var: tparam, val: (), parent: Box::new(ns) },
                *ret_type,
            );
        },
        Expression::Lambda { param, param_type, ret_val } => {
            match param_type {
                Some(t) => lemma_alpha_eq_refl(ns, *t),
                None => {},
            }
            lemma_alpha_eq_refl(
                LookupList::Extend { var: param, val: (), parent: Box::new(ns) },
                *ret_val,
            );
        },
        Expression::Application { func, arg } => {
            lemma_alpha_eq_refl(ns, *func);
            lemma_alpha_eq_refl(ns, *arg);
        },
        Expression::Universe => {},
        Expression::Annotation { expr, type_ } => {
            lemma_alpha_eq_refl(ns, *expr);
            lemma_alpha_eq_refl(ns, *type_);
        },
    }
}

/// Alpha-equivalence is symmetric: the two terms and their binder
/// stacks can be exchanged.
pub proof fn lemma_alpha_eq_symm(ln: Names, l: Expression, rn: Names, r: Expression)
    requires
        alpha_eq_spec(ln, l, rn, r),
    ensures
        alpha_eq_spec(rn, r, ln, l),
    decreases l,
{
    match (l, r) {
        (
            Expression::PiType { tparam: ltp, tparam_type: ltt, ret_type: lrt },
            Expression::PiType { tparam: rtp, tparam_type: rtt, ret_type: rrt },
        ) => {
            lemma_alpha_eq_symm(ln, *ltt, rn, *rtt);
            lemma_alpha_eq_symm(
                LookupList::Extend { var: ltp, val: (), parent: Box::new(ln) },
                *lrt,
                LookupList::Extend { var: rtp, val: (), parent: Box::new(rn) },
                *rrt,
            );
        },
        (
            Expression::Lambda { param: lp, param_type: lpt, ret_val: lrv },
            Expression::Lambda { param: rp, param_type: rpt, ret_val: rrv },
        ) => {
            match (lpt, rpt) {
                (Some(lt), Some(rt)) => lemma_alpha_eq_symm(ln, *lt, rn, *rt),
                _ => {},
            }
            lemma_alpha_eq_symm(
                LookupList::Extend { var: lp, val: (), parent: Box::new(ln) },
                *lrv,
                LookupList::Extend { var: rp, val: (), parent: Box::new(rn) },
                *rrv,
            );
        },
        (
            Expression::Application { func: lf, arg: la },
            Expression::Application { func: rf, arg: ra },
        ) => {
            lemma_alpha_eq_symm(ln, *lf, rn, *rf);
            lemma_alpha_eq_symm(ln, *la, rn, *ra);
        },
        (
            Expression::Annotation { expr: le, type_: lt },
            Expression::Annotation { expr: re, type_: rt },
        ) => {
            lemma_alpha_eq_symm(ln, *le, rn, *re);
            lemma_alpha_eq_symm(ln, *lt, rn, *rt);
        },
        _ => {},
    }
}

/// Alpha-equivalence is transitive, across any three binder stacks.
pub proof fn lemma_alpha_eq_trans(
    n1: Names,
    a: Expression,
    n2: Names,
    b: Expression,
    n3: Names,
    c: Expression,
)
    requires
        alpha_eq_spec(n1, a, n2, b),
        alpha_eq_spec(n2, b, n3, c),
    ensures
        alpha_eq_spec(n1, a, n3, c),
    decreases a,
{
    match (a, b, c) {
        (
            Expression::PiType { tparam: atp, tparam_type: att, ret_type: art },
            Expression::PiType { tparam: btp, tparam_type: btt, ret_type: brt },
            Expression::PiType { tparam: ctp, tparam_type: ctt, ret_type: crt },
        ) => {
            lemma_alpha_eq_trans(n1, *att, n2, *btt, n3, *ctt);
            lemma_alpha_eq_trans(
                LookupList::Extend { var: atp, val: (), parent: Box::new(n1) },
                *art,
                LookupList::Extend { var: btp, val: (), parent: Box::new(n2) },
                *brt,
                LookupList::Extend { var: ctp, val: (), parent: Box::new(n3) },
                *crt,
            );
        },
        (
            Expression::Lambda { param: ap, param_type: apt, ret_val: arv },
            Expression::Lambda { param: bp, param_type: bpt, ret_val: brv },
            Expression::Lambda { param: cp, param_type: cpt, ret_val: crv },
        ) => {
            match (apt, bpt, cpt) {
                (Some(at), Some(bt), Some(ct)) => lemma_alpha_eq_trans(
                    n1,
                    *at,
                    n2,
                    *bt,
                    n3,
                    *ct,
                ),
                _ => {},
            }
            lemma_alpha_eq_trans(
                LookupList::Extend { var: ap, val: (), parent: Box::new(n1) },
                *arv,
                LookupList::Extend { var: bp, val: (), parent: Box::new(n2) },
                *brv,
                LookupList::Extend { var: cp, val: (), parent: Box::new(n3) },
                *crv,
            );
        },
        (
            Expression::Application { func: af, arg: aa },
            Expression::Application { func: bf, arg: ba },
            Expression::Application { func: cf, arg: ca },
        ) => {
            lemma_alpha_eq_trans(n1, *af, n2, *bf, n3, *cf);
            lemma_alpha_eq_trans(n1, *aa, n2, *ba, n3, *ca);
        },
        (
            Expression::Annotation { expr: ae, type_: at },
            Expression::Annotation { expr: be, type_: bt },
            Expression::Annotation { expr: ce, type_: ct },
        ) => {
            lemma_alpha_eq_trans(n1, *ae, n2, *be, n3, *ce);
            lemma_alpha_eq_trans(n1, *at, n2, *bt, n3, *ct);
        },
        _ => {},
    }
}

/// Whether `id` occurs anywhere in `e`: as a variable use or as a
/// binder.
pub open spec fn occurs(e: Expression, id: Identifier) -> bool
    decreases e,
{
    match e {
        Expression::Variable(v) => v == id,
        Expression::PiType { tparam, tparam_type, ret_type } => tparam == id || occurs(
            *tparam_type,
            id,
        ) || occurs(*ret_type, id),
        Expression::Lambda { param, param_type, ret_val } => param == id || (match param_type {
            Some(t) => occurs(*t, id),
            None => false,
        }) || occurs(*ret_val, id),
        Expression::Application { func, arg } => occurs(*func, id) || occurs(*arg, id),
        Expression::Universe => false,
        Expression::Annotation { expr, type_ } => occurs(*expr, id) || occurs(*type_, id),
    }
}

/// `e` with every occurrence of `from` — variable uses and binders
/// alike — replaced by `to`.
pub open spec fn rename_all(e: Expression, from: Identifier, to: Identifier) -> Expression
    decreases e,
{
    let swap = |i: Identifier| if i == from { to } else { i };
    match e {
        Expression::Variable(v) => Expression::Variable(swap(v)),
        Expression::PiType { tparam, tparam_type, ret_type } => Expression::PiType {
            tparam: swap(tparam),
            tparam_type: Box::new(rename_all(*tparam_type, from, to)),
            ret_type: Box::new(rename_all(*ret_type, from, to)),
        },
        Expression::Lambda { param, param_type, ret_val } => Expression::Lambda {
            param: swap(param),
            param_type: match param_type {
                Some(t) => Some(Box::new(rename_all(*t, from, to))),
                None => None,
            },
            ret_val: Box::new(rename_all(*ret_val, from, to)),
        },
        Expression::Application { func, arg } => Expression::Application {
            func: Box::new(rename_all(*func, from, to)),
            arg: Box::new(rename_all(*arg, from, to)),
        },
        Expression::Universe => Expression::Universe,
        Expression::Annotation { expr, type_ } => Expression::Annotation {
            expr: Box::new(rename_all(*expr, from, to)),
            type_: Box::new(rename_all(*type_, from, to)),
        },
    }
}

/// The right binder stack is the left one with one binder renamed from
/// `from` to `to`: below the renamed binder the stacks are identical,
/// and above it every binder is either the renamed pair again or the
/// same untouched name, never `from` or `to`, on both sides.
spec fn stacks_renamed(l: Names, r: Names, from: Identifier, to: Identifier) -> bool
    decreases l,
{
    match (l, r) {
        (
            LookupList::Extend { var: lv, parent: lp, .. },
            LookupList::Extend { var: rv, parent: rp, .. },
        ) => {
            ||| (lv == from && rv == to && (lp == rp || stacks_renamed(*lp, *rp, from, to)))
            ||| (lv == rv && lv != from && lv != to && stacks_renamed(*lp, *rp, from, to))
        },
        _ => false,
    }
}

/// Under stacks related by renaming, a variable other than the new
/// name indexes the same binder on both sides once renamed itself.
proof fn lemma_index_renamed(l: Names, r: Names, from: Identifier, to: Identifier, v: Identifier)
    requires
        stacks_renamed(l, r, from, to),
        v != to,
    ensures
        ({
            let vr = if v == from {
                to
            } else {
                v
            };
            match (l.index_of_spec(v), r.index_of_spec(vr)) {
                (Some(i), Some(j)) => i == j,
                (None, None) => v == vr,
                _ => false,
            }
        }),
    decreases l,
{
    match (l, r) {
        (
            LookupList::Extend { var: lv, parent: lp, .. },
            LookupList::Extend { var: rv, parent: rp, .. },
        ) => {
            if lv == from && rv == to {
                if v != from {
                    if *lp == *rp {
                    } else {
                        lemma_index_renamed(*lp, *rp, from, to, v);
                    }
                }
            } else {
                if v != lv {
                    lemma_index_renamed(*lp, *rp, from, to, v);
                }
            }
        },
        _ => {},
    }
}

/// Under stacks related by renaming, a term that nowhere holds the new
/// name is alpha-equivalent to its renaming.
proof fn lemma_alpha_eq_rename(
    l: Names,
    r: Names,
    e: Expression,
    from: Identifier,
    to: Identifier,
)
    requires
        !occurs(e, to),
        stacks_renamed(l, r, from, to),
    ensures
        alpha_eq_spec(l, e, r, rename_all(e, from, to)),
    decreases e,
{
    match e {
        Expression::Variable(v) => {
            lemma_index_renamed(l, r, from, to, v);
        },
        Expression::PiType { tparam, tparam_type, ret_type } => {
            lemma_alpha_eq_rename(l, r, *tparam_type, from, to);
            let l2 = LookupList::Extend { var: tparam, val: (), parent: Box::new(l) };
            let r2 = LookupList::Extend {
                var: if tparam == from {
                    to
                } else {
                    tparam
                },
                val: (),
                parent: Box::new(r),
            };
            assert(stacks_renamed(l2, r2, from, to));
            lemma_alpha_eq_rename(l2, r2, *ret_type, from, to);
        },
        Expression::Lambda { param, param_type, ret_val } => {
            match param_type {
                Some(t) => lemma_alpha_eq_rename(l, r, *t, from, to),
                None => {},
            }
            let l2 = LookupList::Extend { var: param, val: (), parent: Box::new(l) };
            let r2 = LookupList::Extend {
                var: if param == from {
                    to
                } else {
                    param
                },
                val: (),
                parent: Box::new(r),
            };
            assert(stacks_renamed(l2, r2, from, to));
            lemma_alpha_eq_rename(l2, r2, *ret_val, from, to);
        },
        Expression::Application { func, arg } => {
            lemma_alpha_eq_rename(l, r, *func, from, to);
            lemma_alpha_eq_rename(l, r, *arg, from, to);
        },
        Expression::Universe => {},
        Expression::Annotation { expr, type_ } => {
            lemma_alpha_eq_rename(l, r, *expr, from, to);
            lemma_alpha_eq_rename(l, r, *type_, from, to);
        },
    }
}

/// Renaming a bound variable throughout a lambda's scope, to a name
/// that occurs nowhere in that scope, never changes the term's
/// alpha-equivalence class.
pub proof fn lemma_rename_bound_variable(
    param: Identifier,
    param_type: Option<Box<Expression>>,
    body: Expression,
    to: Identifier,
)
    requires
        !occurs(body, to),
    ensures
        alpha_equivalent_spec(
            Expression::Lambda { param, param_type, ret_val: Box::new(body) },
            Expression::Lambda {
                param: to,
                param_type,
                ret_val: Box::new(rename_all(body, param, to)),
            },
        ) is Ok,
{
    let ns: Names = LookupList::Empty;
    match param_type {
        Some(t) => lemma_alpha_eq_refl(ns, *t),
        None => {},
    }
    let l2 = LookupList::Extend { var: param, val: (), parent: Box::new(ns) };
    let r2 = LookupList::Extend { var: to, val: (), parent: Box::new(ns) };
    assert(stacks_renamed(l2, r2, param, to));
    lemma_alpha_eq_rename(l2, r2, body, param, to);
}

/// [`alpha_equivalent`] is reflexive on every expression.
pub proof fn lemma_alpha_equivalent_refl(e: Expression)
    ensures
        alpha_equivalent_spec(e, e) is Ok,
{
    lemma_alpha_eq_refl(LookupList::Empty, e);
}

/// [`alpha_equivalent`] is symmetric.
pub proof fn lemma_alpha_equivalent_symm(l: Expression, r: Expression)
    requires
        alpha_equivalent_spec(l, r) is Ok,
    ensures
        alpha_equivalent_spec(r, l) is Ok,
{
    lemma_alpha_eq_symm(LookupList::Empty, l, LookupList::Empty, r);
}

/// [`alpha_equivalent`] is transitive.
pub proof fn lemma_alpha_equivalent_trans(a: Expression, b: Expression, c: Expression)
    requires
        alpha_equivalent_spec(a, b) is Ok,
        alpha_equivalent_spec(b, c) is Ok,
    ensures
        alpha_equivalent_spec(a, c) is Ok,
{
    lemma_alpha_eq_trans(
        LookupList::Empty,
        a,
        LookupList::Empty,
        b,
        LookupList::Empty,
        c,
    );
}

/// The result of deciding judgmental equality of `lhs` and `rhs` at
/// the shared `type_`: both are normalized by read-back within `fuel`
/// nested steps and the normal forms compared for alpha-equivalence.
pub open spec fn judgmentally_equal_spec(
    defs: Definitions,
    ctx: Context,
    lhs: Value,
    rhs: Value,
    type_: Type,
    fuel: nat,
) -> Result<(), TypeError>
    decreases fuel,
{
    if fuel == 0 {
        Err(TypeError { kind: TypeErrorKind::OutOfFuel })
    } else {
        let f = (fuel - 1) as nat;
        match read_back_typed_spec(defs, ctx, lhs, type_, f) {
            Ok(lhs_nf) => match read_back_typed_spec(defs, ctx, rhs, type_, f) {
                Ok(rhs_nf) => alpha_equivalent_spec(lhs_nf, rhs_nf),
                Err(e) => Err(e),
            },
            Err(e) => Err(e),
        }
    }
}

/// Checks judgmental equality of [`Value`]s of a shared [`Type`]:
/// normalize both via read-back, then compare up to alpha-equivalence.
pub fn judgmentally_equal(
    defs: &Definitions,
    ctx: &Context,
    lhs: &Value,
    rhs: &Value,
    type_: &Type,
    fuel: u64,
) -> (r: Result<(), TypeError>)
    ensures
        r == judgmentally_equal_spec(*defs, *ctx, *lhs, *rhs, *type_, fuel as nat),
    decreases fuel,
{
    if fuel == 0 {
        return Err(TypeError { kind: TypeErrorKind::OutOfFuel });
    }
    match read_back_typed(defs, ctx, lhs, type_, fuel - 1) {
        Ok(lhs_nf) => match read_back_typed(defs, ctx, rhs, type_, fuel - 1) {
            Ok(rhs_nf) => alpha_equivalent(&lhs_nf, &rhs_nf),
            Err(e) => Err(e),
        },
        Err(e) => Err(e),
    }
}

} // verus!
