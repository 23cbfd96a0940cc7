//! Reading back [`Value`]s as [`Expression`]s in beta-normal, eta-long
//! form: the mechanism beneath judgmental equality and display of
//! computed results.

use vstd::prelude::*;

use crate::dictionaries::Definitions;
use crate::dictionaries::Environment;
use crate::equivalence::alpha_equivalent_spec;
use crate::equivalence::lemma_alpha_equivalent_refl;
use crate::evaluation::closure_call_spec;
use crate::evaluation::do_apply;
use crate::evaluation::do_apply_spec;
use crate::evaluation::eval_spec;
use crate::expression::Expression;
use crate::identifier::fresh_identifier;
use crate::identifier::fresh_spec;
use crate::identifier::Identifier;
use crate::lists::ctx_extend_spec;
use crate::lists::Context;
use crate::type_error::TypeError;
use crate::type_error::TypeErrorKind;
use crate::typing::synth_spec;
use crate::typing::synth_type;
use crate::value::Neutral;
use crate::value::Type;
use crate::value::Value;

verus! {

/// The beta-normal, eta-long form of `val` at `type_`, within `fuel`
/// nested steps.  The case split is on the type, not the value: at a Pi
/// type a fresh lambda is always introduced, so functions come out
/// eta-long; at the universe the value itself denotes a type; at a
/// neutral type the value must itself be neutral.  A value whose kind
/// does not fit its purported type is an internal invariant violation.
pub open spec fn read_back_typed_spec(
    defs: Definitions,
    ctx: Context,
    val: Value,
    type_: Type,
    fuel: nat,
) -> Result<Expression, TypeError>
    decreases fuel,
{
    if fuel == 0 {
        Err(TypeError { kind: TypeErrorKind::OutOfFuel })
    } else {
        let f = (fuel - 1) as nat;
        match type_.0 {
            Value::PiType { param_type, tclosure } => {
                let fresh_id = fresh_spec(defs, ctx, tclosure);
                let fresh_var = Value::Neutral { neu: Neutral::Variable(fresh_id) };
                match do_apply_spec(defs, val, fresh_var, f) {
                    Ok(applied) => match closure_call_spec(defs, tclosure, fresh_var, f) {
                        Ok(ret_ty) => match read_back_typed_spec(
                            defs,
                            ctx_extend_spec(ctx, fresh_id, *param_type),
                            applied,
                            Type(ret_ty),
                            f,
                        ) {
                            Ok(ret_val) => Ok(
                                Expression::Lambda {
                                    param: fresh_id,
                                    param_type: None,
                                    ret_val: Box::new(ret_val),
                                },
                            ),
                            Err(e) => Err(e),
                        },
                        Err(e) => Err(e),
                    },
                    Err(e) => Err(e),
                }
            },
            Value::Universe => match val {
                Value::PiType { param_type: vpt, tclosure: vtc } => {
                    let fresh_id = fresh_spec(defs, ctx, vtc);
                    let fresh_var = Value::Neutral { neu: Neutral::Variable(fresh_id) };
                    match closure_call_spec(defs, vtc, fresh_var, f) {
                        Ok(cod) => match read_back_typed_spec(
                            defs,
                            ctx_extend_spec(ctx, fresh_id, *vpt),
                            cod,
                            Type(Value::Universe),
                            f,
                        ) {
                            Ok(ret_type) => match read_back_typed_spec(
                                defs,
                                ctx,
                                (*vpt).0,
                                Type(Value::Universe),
                                f,
                            ) {
                                Ok(tparam_type) => Ok(
                                    Expression::PiType {
                                        tparam: fresh_id,
                                        tparam_type: Box::new(tparam_type),
                                        ret_type: Box::new(ret_type),
                                    },
                                ),
                                Err(e) => Err(e),
                            },
                            Err(e) => Err(e),
                        },
                        Err(e) => Err(e),
                    }
                },
                Value::Universe => Ok(Expression::Universe),
                Value::Neutral { neu } => read_back_neutral_spec(defs, ctx, neu, f),
                Value::Lambda { closure } => Err(TypeError { kind: TypeErrorKind::InternalError }),
            },
            Value::Neutral { neu } => match val {
                Value::Neutral { neu: vneu } => read_back_neutral_spec(defs, ctx, vneu, f),
                Value::PiType { param_type, tclosure } => Err(
                    TypeError { kind: TypeErrorKind::InternalError },
                ),
                Value::Lambda { closure } => Err(TypeError { kind: TypeErrorKind::InternalError }),
                Value::Universe => Err(TypeError { kind: TypeErrorKind::InternalError }),
            },
            Value::Lambda { closure } => Err(TypeError { kind: TypeErrorKind::InternalError }),
        }
    }
}

/// The beta-normal, eta-long form of a neutral term.  The type of an
/// applied argument is not recorded in the neutral spine, so it is
/// re-synthesized from the read-back of the function; a spine that
/// fails to synthesize a Pi type is an internal invariant violation.
pub open spec fn read_back_neutral_spec(
    defs: Definitions,
    ctx: Context,
    neu: Neutral,
    fuel: nat,
) -> Result<Expression, TypeError>
    decreases fuel,
{
    if fuel == 0 {
        Err(TypeError { kind: TypeErrorKind::OutOfFuel })
    } else {
        let f = (fuel - 1) as nat;
        match neu {
            Neutral::Variable(id) => Ok(Expression::Variable(id)),
            Neutral::Application { func, arg } => match read_back_neutral_spec(
                defs,
                ctx,
                *func,
                f,
            ) {
                Ok(func_expr) => match synth_spec(defs, ctx, func_expr, f) {
                    Ok(func_ty) => match func_ty.0 {
                        Value::PiType { param_type, tclosure } => match read_back_typed_spec(
                            defs,
                            ctx,
                            *arg,
                            *param_type,
                            f,
                        ) {
                            Ok(arg_expr) => Ok(
                                Expression::Application {
                                    func: Box::new(func_expr),
                                    arg: Box::new(arg_expr),
                                },
                            ),
                            Err(e) => Err(e),
                        },
                        Value::Lambda { closure } => Err(
                            TypeError { kind: TypeErrorKind::InternalError },
                        ),
                        Value::Universe => Err(TypeError { kind: TypeErrorKind::InternalError }),
                        Value::Neutral { neu: tneu } => Err(
                            TypeError { kind: TypeErrorKind::InternalError },
                        ),
                    },
                    Err(e) => if e.kind == TypeErrorKind::OutOfFuel {
                        Err(e)
                    } else {
                        Err(TypeError { kind: TypeErrorKind::InternalError })
                    },
                },
                Err(e) => Err(e),
            },
        }
    }
}

/// Eta-totality: whenever read-back at a Pi type succeeds, the result
/// is a `Lambda` node — whatever the value was, a neutral variable of
/// function type not excepted.
pub proof fn lemma_read_back_at_pi_is_lambda(
    defs: Definitions,
    ctx: Context,
    val: Value,
    type_: Type,
    fuel: nat,
    e: Expression,
)
    requires
        type_.0 is PiType,
        read_back_typed_spec(defs, ctx, val, type_, fuel) == Ok::<Expression, TypeError>(e),
    ensures
        e is Lambda,
{
}

/// One leg of idempotence of normalization: the universe value at the
/// universe type reads back to the universe expression, that
/// expression re-evaluates to the universe value under any context,
/// and the two read-backs are alpha-equivalent.
pub proof fn lemma_normalization_idempotent_universe(defs: Definitions, ctx: Context, fuel: nat)
    requires
        fuel >= 1,
    ensures
        read_back_typed_spec(defs, ctx, Value::Universe, Type(Value::Universe), fuel) == Ok::<
            Expression,
            TypeError,
        >(Expression::Universe),
        eval_spec(defs, Environment::FromContext { ctx }, Expression::Universe, fuel) == Ok::<
            Value,
            TypeError,
        >(Value::Universe),
        alpha_equivalent_spec(Expression::Universe, Expression::Universe) is Ok,
{
    lemma_alpha_equivalent_refl(Expression::Universe);
}

/// One leg of idempotence of normalization: a neutral variable
/// declared in the context, at the universe type, reads back to
/// itself, re-evaluates under the context to the same neutral value,
/// and the two read-backs are alpha-equivalent.
pub proof fn lemma_normalization_idempotent_neutral_var(
    defs: Definitions,
    ctx: Context,
    x: Identifier,
    fuel: nat,
)
    requires
        fuel >= 2,
        ctx.spec_lookup(x) is Some,
    ensures
        read_back_typed_spec(
            defs,
            ctx,
            Value::Neutral { neu: Neutral::Variable(x) },
            Type(Value::Universe),
            fuel,
        ) == Ok::<Expression, TypeError>(Expression::Variable(x)),
        eval_spec(defs, Environment::FromContext { ctx }, Expression::Variable(x), fuel) == Ok::<
            Value,
            TypeError,
        >(Value::Neutral { neu: Neutral::Variable(x) }),
        alpha_equivalent_spec(Expression::Variable(x), Expression::Variable(x)) is Ok,
{
    assert(read_back_neutral_spec(defs, ctx, Neutral::Variable(x), (fuel - 1) as nat) == Ok::<
        Expression,
        TypeError,
    >(Expression::Variable(x)));
    lemma_alpha_equivalent_refl(Expression::Variable(x));
}

/// Reads back a [`Type`]d [`Value`] to an [`Expression`] in
/// beta-normal, eta-long form, within `fuel` nested steps.
pub fn read_back_typed(
    defs: &Definitions,
    ctx: &Context,
    val: &Value,
    type_: &Type,
    fuel: u64,
) -> (r: Result<Expression, TypeError>)
    ensures
        r == read_back_typed_spec(*defs, *ctx, *val, *type_, fuel as nat),
    decreases fuel,
{
    if fuel == 0 {
        return Err(TypeError { kind: TypeErrorKind::OutOfFuel });
    }
    match &type_.0 {
        Value::PiType { param_type, tclosure } => {
            let fresh_id = fresh_identifier(defs, ctx, tclosure);
            let fresh_var = Value::Neutral { neu: Neutral::Variable(fresh_id) };
            let ctx2 = ctx.extend(&fresh_id, param_type);
            match do_apply(defs, val, &fresh_var, fuel - 1) {
                Ok(applied) => match tclosure.call(defs, &fresh_var, fuel - 1) {
                    Ok(ret_ty) => match read_back_typed(
                        defs,
                        &ctx2,
                        &applied,
                        &Type::create_type_from_value(ret_ty),
                        fuel - 1,
                    ) {
                        Ok(ret_val) => Ok(
                            Expression::Lambda {
                                param: fresh_id,
                                param_type: None,
                                ret_val: Box::new(ret_val),
                            },
                        ),
                        Err(e) => Err(e),
                    },
                    Err(e) => Err(e),
                },
                Err(e) => Err(e),
            }
        },
        Value::Universe => match val {
            Value::PiType { param_type: vpt, tclosure: vtc } => {
                let fresh_id = fresh_identifier(defs, ctx, vtc);
                let fresh_var = Value::Neutral { neu: Neutral::Variable(fresh_id) };
                let ctx2 = ctx.extend(&fresh_id, vpt);
                match vtc.call(defs, &fresh_var, fuel - 1) {
                    Ok(cod) => match read_back_typed(
                        defs,
                        &ctx2,
                        &cod,
                        &Type::universe(),
                        fuel - 1,
                    ) {
                        Ok(ret_type) => match read_back_typed(
                            defs,
                            ctx,
                            &(**vpt).0,
                            &Type::universe(),
                            fuel - 1,
                        ) {
                            Ok(tparam_type) => Ok(
                                Expression::PiType {
                                    tparam: fresh_id,
                                    tparam_type: Box::new(tparam_type),
                                    ret_type: Box::new(ret_type),
                                },
                            ),
                            Err(e) => Err(e),
                        },
                        Err(e) => Err(e),
                    },
                    Err(e) => Err(e),
                }
            },
            Value::Universe => Ok(Expression::Universe),
            Value::Neutral { neu } => read_back_neutral(defs, ctx, neu, fuel - 1),
            Value::Lambda { .. } => Err(TypeError { kind: TypeErrorKind::InternalError }),
        },
        Value::Neutral { .. } => match val {
            Value::Neutral { neu } => read_back_neutral(defs, ctx, neu, fuel - 1),
            Value::PiType { .. } => Err(TypeError { kind: TypeErrorKind::InternalError }),
            Value::Lambda { .. } => Err(TypeError { kind: TypeErrorKind::InternalError }),
            Value::Universe => Err(TypeError { kind: TypeErrorKind::InternalError }),
        },
        Value::Lambda { .. } => Err(TypeError { kind: TypeErrorKind::InternalError }),
    }
}

/// Reads back a [`Neutral`] value to an [`Expression`] in beta-normal,
/// eta-long form, within `fuel` nested steps.
pub fn read_back_neutral(defs: &Definitions, ctx: &Context, neu: &Neutral, fuel: u64) -> (r: Result<
    Expression,
    TypeError,
>)
    ensures
        r == read_back_neutral_spec(*defs, *ctx, *neu, fuel as nat),
    decreases fuel,
{
    if fuel == 0 {
        return Err(TypeError { kind: TypeErrorKind::OutOfFuel });
    }
    match neu {
        Neutral::Variable(id) => Ok(Expression::Variable(*id)),
        Neutral::Application { func, arg } => match read_back_neutral(defs, ctx, func, fuel - 1) {
            Ok(func_expr) => match synth_type(defs, ctx, &func_expr, fuel - 1) {
                Ok(func_ty) => match &func_ty.0 {
                    Value::PiType { param_type, tclosure } => match read_back_typed(
                        defs,
                        ctx,
                        arg,
                        param_type,
                        fuel - 1,
                    ) {
                        Ok(arg_expr) => Ok(
                            Expression::Application {
                                func: Box::new(func_expr),
                                arg: Box::new(arg_expr),
                            },
                        ),
                        Err(e) => Err(e),
                    },
                    Value::Lambda { .. } => Err(TypeError { kind: TypeErrorKind::InternalError }),
                    Value::Universe => Err(TypeError { kind: TypeErrorKind::InternalError }),
                    Value::Neutral { .. } => Err(TypeError { kind: TypeErrorKind::InternalError }),
                },
                Err(e) => if e.kind == TypeErrorKind::OutOfFuel {
                    Err(e)
                } else {
                    Err(TypeError { kind: TypeErrorKind::InternalError })
                },
            },
            Err(e) => Err(e),
        },
    }
}

} // verus!
