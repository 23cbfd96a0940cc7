use alpha::environment::{evaluate_var, Context, Definitions, Environment};
use alpha::evaluation::evaluate;
use alpha::expression::Expression;
use alpha::value::{Neutral, Type, Value};
use alpha::Identifier;
use alpha::TypeErrorKind;

fn var(n: usize) -> Expression {
    Expression::Variable(Identifier { name: n })
}

#[test]
fn universe_evaluates_to_universe() {
    let defs = Definitions::new();
    let v = evaluate(&defs, &Environment::empty(), &Expression::Universe, 100).unwrap();
    assert!(matches!(v, Value::Universe));
}

#[test]
fn beta_reduction_of_identity_application() {
    // (λx. x)(U) evaluates to U: applying a lambda reduces at once.
    let defs = Definitions::new();
    let x = Identifier { name: 0 };
    let app = Expression::Application {
        func: Box::new(Expression::Lambda {
            param: x,
            param_type: None,
            ret_val: Box::new(var(0)),
        }),
        arg: Box::new(Expression::Universe),
    };
    let v = evaluate(&defs, &Environment::empty(), &app, 100).unwrap();
    assert!(matches!(v, Value::Universe));
}

#[test]
fn context_variable_evaluates_to_neutral() {
    let defs = Definitions::new();
    let x = Identifier { name: 3 };
    let ctx = Context::empty().extend(&x, &Type::universe());
    let env = Environment::from_context(&ctx);
    let v = evaluate(&defs, &env, &var(3), 100).unwrap();
    match v {
        Value::Neutral { neu: Neutral::Variable(id) } => assert_eq!(id.name, 3),
        _ => panic!("a declared variable must evaluate to itself as a neutral variable"),
    }
}

#[test]
fn defined_variable_evaluates_to_its_value() {
    let x = Identifier { name: 0 };
    let defs = Definitions::new().insert(x, Type::universe(), Value::Universe);
    let env = Environment::empty();
    let v = evaluate_var(&defs, &env, &x).unwrap();
    assert!(matches!(v, Value::Universe));
}

#[test]
fn unbound_variable_is_reported() {
    let defs = Definitions::new();
    let e = evaluate(&defs, &Environment::empty(), &var(7), 100).unwrap_err();
    assert_eq!(e.kind, TypeErrorKind::VariableNotFound);
}

#[test]
fn annotation_is_evaluated_transparently() {
    let defs = Definitions::new();
    let ann = Expression::Annotation {
        expr: Box::new(Expression::Universe),
        type_: Box::new(Expression::Universe),
    };
    let v = evaluate(&defs, &Environment::empty(), &ann, 100).unwrap();
    assert!(matches!(v, Value::Universe));
}

#[test]
fn evaluation_without_fuel_reports_exhaustion() {
    let defs = Definitions::new();
    let e = evaluate(&defs, &Environment::empty(), &Expression::Universe, 0).unwrap_err();
    assert_eq!(e.kind, TypeErrorKind::OutOfFuel);
}

#[test]
fn self_application_loop_runs_out_of_fuel() {
    // (λx. (x)(x))(λx. (x)(x)) has no normal form; evaluation stops at
    // the fuel bound instead of diverging.
    let x = Identifier { name: 0 };
    let omega_half = Expression::Lambda {
        param: x,
        param_type: None,
        ret_val: Box::new(Expression::Application {
            func: Box::new(var(0)),
            arg: Box::new(var(0)),
        }),
    };
    let omega = Expression::Application {
        func: Box::new(omega_half.clone()),
        arg: Box::new(omega_half),
    };
    let defs = Definitions::new();
    let e = evaluate(&defs, &Environment::empty(), &omega, 500).unwrap_err();
    assert_eq!(e.kind, TypeErrorKind::OutOfFuel);
}

#[test]
fn pi_expression_evaluates_to_pi_value() {
    let defs = Definitions::new();
    let x = Identifier { name: 0 };
    let pi = Expression::PiType {
        tparam: x,
        tparam_type: Box::new(Expression::Universe),
        ret_type: Box::new(Expression::Universe),
    };
    let v = evaluate(&defs, &Environment::empty(), &pi, 100).unwrap();
    match v {
        Value::PiType { param_type, tclosure } => {
            assert!(matches!(param_type.0, Value::Universe));
            assert_eq!(tclosure.param.name, 0);
        },
        _ => panic!("a pi expression must evaluate to a pi value"),
    }
}
