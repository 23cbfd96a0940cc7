//! Bidirectional type checking: the checking mode `check_type` and the
//! synthesis mode `synth_type`, mutually recursive over the syntax.

use vstd::prelude::*;

use crate::dictionaries::ctx_to_flat;
use crate::dictionaries::Closure;
use crate::dictionaries::Definitions;
use crate::dictionaries::Environment;
use crate::equivalence::judgmentally_equal;
use crate::equivalence::judgmentally_equal_spec;
use crate::evaluation::closure_call_spec;
use crate::evaluation::eval_spec;
use crate::evaluation::evaluate;
use crate::expression::Expression;
use crate::identifier::Identifier;
use crate::lists::ctx_extend_spec;
use crate::lists::type_var;
use crate::lists::type_var_spec;
use crate::lists::Context;
use crate::read_back::read_back_typed;
use crate::read_back::read_back_typed_spec;
use crate::type_error::TypeError;
use crate::type_error::TypeErrorKind;
use crate::value::clone_type;
use crate::value::Neutral;
use crate::value::Type;
use crate::value::Value;

verus! {

/// The result of checking `expr` against `type_` under `defs` and
/// `ctx`, within `fuel` nested steps.
///
/// An un-annotated lambda is checked against a Pi type by calling the
/// Pi's codomain closure on the lambda's own parameter as a neutral
/// variable and checking the body in the extended context; against any
/// other type it fails as not-a-Pi-type.  Every other expression has
/// its type synthesized and compared for judgmental equality with the
/// expected type at the universe; normal forms that differ report a
/// type mismatch.
pub open spec fn check_spec(
    defs: Definitions,
    ctx: Context,
    expr: Expression,
    type_: Type,
    fuel: nat,
) -> Result<(), TypeError>
    decreases fuel,
{
    if fuel == 0 {
        Err(TypeError { kind: TypeErrorKind::OutOfFuel })
    } else {
        let f = (fuel - 1) as nat;
        match expr {
            Expression::Lambda { param, param_type: None, ret_val } => match type_.0 {
                Value::PiType { param_type, tclosure } => match closure_call_spec(
                    defs,
                    tclosure,
                    Value::Neutral { neu: Neutral::Variable(param) },
                    f,
                ) {
                    Ok(ret_type) => check_spec(
                        defs,
                        ctx_extend_spec(ctx, param, *param_type),
                        *ret_val,
                        Type(ret_type),
                        f,
                    ),
                    Err(e) => Err(e),
                },
                _ => Err(TypeError { kind: TypeErrorKind::NotAPiType }),
            },
            _ => match synth_spec(defs, ctx, expr, f) {
                Ok(syn) => match judgmentally_equal_spec(
                    defs,
                    ctx,
                    syn.0,
                    type_.0,
                    Type(Value::Universe),
                    f,
                ) {
                    Ok(u) => Ok(()),
                    Err(e) => if e.kind == TypeErrorKind::NotAlphaEquivalent {
                        Err(TypeError { kind: TypeErrorKind::TypeMismatch })
                    } else {
                        Err(e)
                    },
                },
                Err(e) => Err(e),
            },
        }
    }
}

/// The type synthesized for `expr` under `defs` and `ctx`, within
/// `fuel` nested steps.
///
/// A variable's type is looked up in the context, then the definitions.
/// A Pi type lives in the universe once its domain and codomain check
/// against the universe.  An annotated lambda synthesizes a Pi type
/// whose codomain is the read-back of the body's synthesized type,
/// closed over the current context; an un-annotated one is never
/// synthesizable.  An application synthesizes a Pi type for the
/// function, checks the argument against its domain, and returns the
/// codomain closure called on the evaluated argument.  The universe
/// types itself, and an annotation returns its checked, evaluated type.
pub open spec fn synth_spec(
    defs: Definitions,
    ctx: Context,
    expr: Expression,
    fuel: nat,
) -> Result<Type, TypeError>
    decreases fuel,
{
    if fuel == 0 {
        Err(TypeError { kind: TypeErrorKind::OutOfFuel })
    } else {
        let f = (fuel - 1) as nat;
        match expr {
            Expression::Variable(id) => match type_var_spec(defs, ctx, id) {
                Some(t) => Ok(t),
                None => Err(TypeError { kind: TypeErrorKind::VariableNotFound }),
            },
            Expression::PiType { tparam, tparam_type, ret_type } => match check_spec(
                defs,
                ctx,
                *tparam_type,
                Type(Value::Universe),
                f,
            ) {
                Ok(u) => match eval_spec(defs, Environment::FromContext { ctx }, *tparam_type, f) {
                    Ok(ttv) => match check_spec(
                        defs,
                        ctx_extend_spec(ctx, tparam, Type(ttv)),
                        *ret_type,
                        Type(Value::Universe),
                        f,
                    ) {
                        Ok(u2) => Ok(Type(Value::Universe)),
                        Err(e) => Err(e),
                    },
                    Err(e) => Err(e),
                },
                Err(e) => Err(e),
            },
            Expression::Lambda { param, param_type: Some(pt), ret_val } => match check_spec(
                defs,
                ctx,
                *pt,
                Type(Value::Universe),
                f,
            ) {
                Ok(u) => match eval_spec(defs, Environment::FromContext { ctx }, *pt, f) {
                    Ok(ptv) => match synth_spec(
                        defs,
                        ctx_extend_spec(ctx, param, Type(ptv)),
                        *ret_val,
                        f,
                    ) {
                        Ok(ret_ty) => match read_back_typed_spec(
                            defs,
                            ctx,
                            ret_ty.0,
                            Type(Value::Universe),
                            f,
                        ) {
                            Ok(ret_expr) => Ok(
                                Type(
                                    Value::PiType {
                                        param_type: Box::new(Type(ptv)),
                                        tclosure: Closure {
                                            env: ctx_to_flat(ctx.0),
                                            param,
                                            body: ret_expr,
                                        },
                                    },
                                ),
                            ),
                            Err(e) => Err(e),
                        },
                        Err(e) => Err(e),
                    },
                    Err(e) => Err(e),
                },
                Err(e) => Err(e),
            },
            Expression::Lambda { param, param_type: None, ret_val } => Err(
                TypeError { kind: TypeErrorKind::UninferableLambda },
            ),
            Expression::Application { func, arg } => match synth_spec(defs, ctx, *func, f) {
                Ok(func_ty) => match func_ty.0 {
                    Value::PiType { param_type, tclosure } => match check_spec(
                        defs,
                        ctx,
                        *arg,
                        *param_type,
                        f,
                    ) {
                        Ok(u) => match eval_spec(defs, Environment::FromContext { ctx }, *arg, f) {
                            Ok(av) => match closure_call_spec(defs, tclosure, av, f) {
                                Ok(rv) => Ok(Type(rv)),
                                Err(e) => Err(e),
                            },
                            Err(e) => Err(e),
                        },
                        Err(e) => Err(e),
                    },
                    _ => Err(TypeError { kind: TypeErrorKind::NotAFunction }),
                },
                Err(e) => Err(e),
            },
            Expression::Universe => Ok(Type(Value::Universe)),
            Expression::Annotation { expr: inner, type_ } => match check_spec(
                defs,
                ctx,
                *type_,
                Type(Value::Universe),
                f,
            ) {
                Ok(u) => match eval_spec(defs, Environment::FromContext { ctx }, *type_, f) {
                    Ok(tv) => match check_spec(defs, ctx, *inner, Type(tv), f) {
                        Ok(u2) => Ok(Type(tv)),
                        Err(e) => Err(e),
                    },
                    Err(e) => Err(e),
                },
                Err(e) => Err(e),
            },
        }
    }
}

/// An un-annotated lambda is never synthesizable: whenever fuel
/// remains, synthesis on it fails with the uninferable-lambda error,
/// whatever the definitions, context and body.
pub proof fn lemma_synth_unannotated_lambda(
    defs: Definitions,
    ctx: Context,
    param: Identifier,
    ret_val: Expression,
    fuel: nat,
)
    requires
        fuel >= 1,
    ensures
        synth_spec(
            defs,
            ctx,
            Expression::Lambda { param, param_type: None, ret_val: Box::new(ret_val) },
            fuel,
        ) == Err::<Type, TypeError>(TypeError { kind: TypeErrorKind::UninferableLambda }),
{
}

/// Checks the [`Type`] of an [`Expression`], within `fuel` nested
/// steps.
pub fn check_type(
    defs: &Definitions,
    ctx: &Context,
    expr: &Expression,
    type_: &Type,
    fuel: u64,
) -> (r: Result<(), TypeError>)
    ensures
        r == check_spec(*defs, *ctx, *expr, *type_, fuel as nat),
    decreases fuel,
{
    if fuel == 0 {
        return Err(TypeError { kind: TypeErrorKind::OutOfFuel });
    }
    match expr {
        Expression::Lambda { param, param_type: None, ret_val } => match &type_.0 {
            Value::PiType { param_type, tclosure } => {
                let neutral_param = Value::Neutral { neu: Neutral::Variable(*param) };
                match tclosure.call(defs, &neutral_param, fuel - 1) {
                    Ok(ret_type) => {
                        let ctx2 = ctx.extend(param, param_type);
                        check_type(
                            defs,
                            &ctx2,
                            ret_val,
                            &Type::create_type_from_value(ret_type),
                            fuel - 1,
                        )
                    },
                    Err(e) => Err(e),
                }
            },
            Value::Lambda { .. } => Err(TypeError { kind: TypeErrorKind::NotAPiType }),
            Value::Universe => Err(TypeError { kind: TypeErrorKind::NotAPiType }),
            Value::Neutral { .. } => Err(TypeError { kind: TypeErrorKind::NotAPiType }),
        },
        _ => match synth_type(defs, ctx, expr, fuel - 1) {
            Ok(syn) => match judgmentally_equal(
                defs,
                ctx,
                &syn.0,
                &type_.0,
                &Type::universe(),
                fuel - 1,
            ) {
                Ok(u) => Ok(()),
                Err(e) => if e.kind == TypeErrorKind::NotAlphaEquivalent {
                    Err(TypeError { kind: TypeErrorKind::TypeMismatch })
                } else {
                    Err(e)
                },
            },
            Err(e) => Err(e),
        },
    }
}

/// Synthesizes a [`Type`] for an [`Expression`], within `fuel` nested
/// steps.
pub fn synth_type(defs: &Definitions, ctx: &Context, expr: &Expression, fuel: u64) -> (r: Result<
    Type,
    TypeError,
>)
    ensures
        r == synth_spec(*defs, *ctx, *expr, fuel as nat),
    decreases fuel,
{
    if fuel == 0 {
        return Err(TypeError { kind: TypeErrorKind::OutOfFuel });
    }
    match expr {
        Expression::Variable(id) => match type_var(defs, ctx, id) {
            Ok(t) => Ok(clone_type(t)),
            Err(e) => Err(e),
        },
        Expression::PiType { tparam, tparam_type, ret_type } => {
            match check_type(defs, ctx, tparam_type, &Type::universe(), fuel - 1) {
                Ok(u) => match evaluate(defs, &Environment::from_context(ctx), tparam_type, fuel
                    - 1) {
                    Ok(ttv) => {
                        let ttv_ty = Type::create_type_from_value(ttv);
                        let ctx2 = ctx.extend(tparam, &ttv_ty);
                        match check_type(defs, &ctx2, ret_type, &Type::universe(), fuel - 1) {
                            Ok(u2) => Ok(Type::universe()),
                            Err(e) => Err(e),
                        }
                    },
                    Err(e) => Err(e),
                },
                Err(e) => Err(e),
            }
        },
        Expression::Lambda { param, param_type: Some(pt), ret_val } => {
            match check_type(defs, ctx, pt, &Type::universe(), fuel - 1) {
                Ok(u) => match evaluate(defs, &Environment::from_context(ctx), pt, fuel - 1) {
                    Ok(ptv) => {
                        let ptv_ty = Type::create_type_from_value(ptv);
                        let ctx2 = ctx.extend(param, &ptv_ty);
                        match synth_type(defs, &ctx2, ret_val, fuel - 1) {
                            Ok(ret_ty) => match read_back_typed(
                                defs,
                                ctx,
                                &ret_ty.0,
                                &Type::universe(),
                                fuel - 1,
                            ) {
                                Ok(ret_expr) => Ok(
                                    Type::create_type_from_value(
                                        Value::PiType {
                                            param_type: Box::new(ptv_ty),
                                            tclosure: Closure::new_in_ctx(ctx, *param, ret_expr),
                                        },
                                    ),
                                ),
                                Err(e) => Err(e),
                            },
                            Err(e) => Err(e),
                        }
                    },
                    Err(e) => Err(e),
                },
                Err(e) => Err(e),
            }
        },
        Expression::Lambda { param, param_type: None, ret_val } => Err(
            TypeError { kind: TypeErrorKind::UninferableLambda },
        ),
        Expression::Application { func, arg } => match synth_type(defs, ctx, func, fuel - 1) {
            Ok(func_ty) => match &func_ty.0 {
                Value::PiType { param_type, tclosure } => {
                    match check_type(defs, ctx, arg, param_type, fuel - 1) {
                        Ok(u) => match evaluate(defs, &Environment::from_context(ctx), arg, fuel
                            - 1) {
                            Ok(av) => match tclosure.call(defs, &av, fuel - 1) {
                                Ok(rv) => Ok(Type::create_type_from_value(rv)),
                                Err(e) => Err(e),
                            },
                            Err(e) => Err(e),
                        },
                        Err(e) => Err(e),
                    }
                },
                Value::Lambda { .. } => Err(TypeError { kind: TypeErrorKind::NotAFunction }),
                Value::Universe => Err(TypeError { kind: TypeErrorKind::NotAFunction }),
                Value::Neutral { .. } => Err(TypeError { kind: TypeErrorKind::NotAFunction }),
            },
            Err(e) => Err(e),
        },
        Expression::Universe => Ok(Type::universe()),
        Expression::Annotation { expr: inner, type_ } => {
            match check_type(defs, ctx, type_, &Type::universe(), fuel - 1) {
                Ok(u) => match evaluate(defs, &Environment::from_context(ctx), type_, fuel - 1) {
                    Ok(tv) => {
                        let tv_ty = Type::create_type_from_value(tv);
                        match check_type(defs, ctx, inner, &tv_ty, fuel - 1) {
                            Ok(u2) => Ok(tv_ty),
                            Err(e) => Err(e),
                        }
                    },
                    Err(e) => Err(e),
                },
                Err(e) => Err(e),
            }
        },
    }
}

} // verus!
