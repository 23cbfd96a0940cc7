//! Evaluating [`Expression`]s to [`Value`]s.
//!
//! Because the universe types itself, evaluation is not total; both the
//! specification and the evaluator are bounded by an explicit fuel
//! count, and every recursive step costs one unit.

use vstd::prelude::*;

use crate::dictionaries::evaluate_var;
use crate::dictionaries::evaluate_var_spec;
use crate::dictionaries::Closure;
use crate::dictionaries::Definitions;
use crate::dictionaries::Environment;
use crate::expression::clone_expression;
use crate::identifier::Identifier;
use crate::expression::Expression;
use crate::type_error::TypeError;
use crate::type_error::TypeErrorKind;
use crate::value::clone_neutral;
use crate::value::clone_value;
use crate::value::Neutral;
use crate::value::Type;
use crate::value::Value;

verus! {

/// The result of evaluating `expr` under `defs` and `env` within `fuel`
/// nested steps: beta-reduction happens eagerly wherever a lambda meets
/// an argument, and a lambda or Pi codomain becomes a closure over the
/// flattened snapshot of `env`.
pub open spec fn eval_spec(
    defs: Definitions,
    env: Environment,
    expr: Expression,
    fuel: nat,
) -> Result<Value, TypeError>
    decreases fuel,
{
    if fuel == 0 {
        Err(TypeError { kind: TypeErrorKind::OutOfFuel })
    } else {
        let f = (fuel - 1) as nat;
        match expr {
            Expression::Variable(id) => evaluate_var_spec(defs, env, id),
            Expression::PiType { tparam, tparam_type, ret_type } => match eval_spec(
                defs,
                env,
                *tparam_type,
                f,
            ) {
                Ok(pt) => Ok(
                    Value::PiType {
                        param_type: Box::new(Type(pt)),
                        tclosure: Closure {
                            env: env.to_flat_spec(),
                            param: tparam,
                            body: *ret_type,
                        },
                    },
                ),
                Err(e) => Err(e),
            },
            Expression::Lambda { param, param_type, ret_val } => Ok(
                Value::Lambda {
                    closure: Closure { env: env.to_flat_spec(), param, body: *ret_val },
                },
            ),
            Expression::Application { func, arg } => match eval_spec(defs, env, *func, f) {
                Ok(fv) => match eval_spec(defs, env, *arg, f) {
                    Ok(av) => do_apply_spec(defs, fv, av, f),
                    Err(e) => Err(e),
                },
                Err(e) => Err(e),
            },
            Expression::Universe => Ok(Value::Universe),
            Expression::Annotation { expr: inner, type_ } => eval_spec(defs, env, *inner, f),
        }
    }
}

/// The result of applying `func` to `arg`: a lambda is called, a
/// neutral head records the application, and anything else is an
/// internal invariant violation the checker should have ruled out.
pub open spec fn do_apply_spec(defs: Definitions, func: Value, arg: Value, fuel: nat) -> Result<
    Value,
    TypeError,
>
    decreases fuel,
{
    if fuel == 0 {
        Err(TypeError { kind: TypeErrorKind::OutOfFuel })
    } else {
        let f = (fuel - 1) as nat;
        match func {
            Value::Lambda { closure } => closure_call_spec(defs, closure, arg, f),
            Value::Neutral { neu } => Ok(
                Value::Neutral {
                    neu: Neutral::Application { func: Box::new(neu), arg: Box::new(arg) },
                },
            ),
            Value::PiType { param_type, tclosure } => Err(
                TypeError { kind: TypeErrorKind::InternalError },
            ),
            Value::Universe => Err(TypeError { kind: TypeErrorKind::InternalError }),
        }
    }
}

/// The result of calling `closure` on `arg`: its body evaluated in the
/// captured snapshot extended with the parameter binding.
pub open spec fn closure_call_spec(
    defs: Definitions,
    closure: Closure,
    arg: Value,
    fuel: nat,
) -> Result<Value, TypeError>
    decreases fuel,
{
    if fuel == 0 {
        Err(TypeError { kind: TypeErrorKind::OutOfFuel })
    } else {
        eval_spec(
            defs,
            Environment::Extend {
                parent: closure.env,
                var: closure.param,
                val: Box::new(arg),
            },
            closure.body,
            (fuel - 1) as nat,
        )
    }
}

/// Beta-soundness: evaluating the application of a lambda to an
/// argument is evaluating the lambda's body with its parameter bound
/// to the argument's value — substitution realized through the
/// environment the closure captured.  One unit of fuel is spent on the
/// application node, one on the apply step and one on the closure
/// call, so the body is evaluated at `fuel - 3`.
pub proof fn lemma_beta_soundness(
    defs: Definitions,
    env: Environment,
    param: Identifier,
    param_type: Option<Box<Expression>>,
    body: Expression,
    arg: Expression,
    fuel: nat,
)
    requires
        fuel >= 3,
    ensures
        eval_spec(
            defs,
            env,
            Expression::Application {
                func: Box::new(
                    Expression::Lambda { param, param_type, ret_val: Box::new(body) },
                ),
                arg: Box::new(arg),
            },
            fuel,
        ) == (match eval_spec(defs, env, arg, (fuel - 1) as nat) {
            Ok(arg_val) => eval_spec(
                defs,
                Environment::Extend {
                    parent: env.to_flat_spec(),
                    var: param,
                    val: Box::new(arg_val),
                },
                body,
                (fuel - 3) as nat,
            ),
            Err(e) => Err(e),
        }),
{
    let f = (fuel - 1) as nat;
    let lam = Expression::Lambda { param, param_type, ret_val: Box::new(body) };
    let lam_val = Value::Lambda {
        closure: Closure { env: env.to_flat_spec(), param, body },
    };
    assert(eval_spec(defs, env, lam, f) == Ok::<Value, TypeError>(lam_val));
    let arg_res = eval_spec(defs, env, arg, f);
    if arg_res is Ok {
        let arg_val = arg_res.unwrap();
        assert(do_apply_spec(defs, lam_val, arg_val, f) == closure_call_spec(
            defs,
            lam_val->Lambda_closure,
            arg_val,
            (f - 1) as nat,
        ));
    }
}

/// Evaluates an expression to a value, within `fuel` nested steps.
pub fn evaluate(defs: &Definitions, env: &Environment, expr: &Expression, fuel: u64) -> (r: Result<
    Value,
    TypeError,
>)
    ensures
        r == eval_spec(*defs, *env, *expr, fuel as nat),
    decreases fuel,
{
    if fuel == 0 {
        return Err(TypeError { kind: TypeErrorKind::OutOfFuel });
    }
    match expr {
        Expression::Variable(id) => evaluate_var(defs, env, id),
        Expression::PiType { tparam, tparam_type, ret_type } => {
            match evaluate(defs, env, tparam_type, fuel - 1) {
                Ok(pt) => Ok(
                    Value::PiType {
                        param_type: Box::new(Type::create_type_from_value(pt)),
                        tclosure: Closure::new_in_env(env, *tparam, clone_expression(ret_type)),
                    },
                ),
                Err(e) => Err(e),
            }
        },
        Expression::Lambda { param, param_type, ret_val } => Ok(
            Value::Lambda { closure: Closure::new_in_env(env, *param, clone_expression(ret_val)) },
        ),
        Expression::Application { func, arg } => match evaluate(defs, env, func, fuel - 1) {
            Ok(fv) => match evaluate(defs, env, arg, fuel - 1) {
                Ok(av) => do_apply(defs, &fv, &av, fuel - 1),
                Err(e) => Err(e),
            },
            Err(e) => Err(e),
        },
        Expression::Universe => Ok(Value::Universe),
        Expression::Annotation { expr: inner, type_ } => evaluate(defs, env, inner, fuel - 1),
    }
}

/// Applies an already-evaluated function value to an argument value.
pub(crate) fn do_apply(defs: &Definitions, func: &Value, arg: &Value, fuel: u64) -> (r: Result<
    Value,
    TypeError,
>)
    ensures
        r == do_apply_spec(*defs, *func, *arg, fuel as nat),
    decreases fuel,
{
    if fuel == 0 {
        return Err(TypeError { kind: TypeErrorKind::OutOfFuel });
    }
    match func {
        Value::Lambda { closure } => closure.call(defs, arg, fuel - 1),
        Value::Neutral { neu } => Ok(
            Value::Neutral {
                neu: Neutral::Application {
                    func: Box::new(clone_neutral(neu)),
                    arg: Box::new(clone_value(arg)),
                },
            },
        ),
        Value::PiType { param_type, tclosure } => Err(
            TypeError { kind: TypeErrorKind::InternalError },
        ),
        Value::Universe => Err(TypeError { kind: TypeErrorKind::InternalError }),
    }
}

} // verus!
