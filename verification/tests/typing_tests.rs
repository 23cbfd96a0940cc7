use alpha::environment::{Context, Definitions, Environment};
use alpha::evaluation::evaluate;
use alpha::expression::Expression;
use alpha::typing::{check_type, synth_type};
use alpha::value::{Type, Value};
use alpha::Identifier;
use alpha::TypeErrorKind;

const FUEL: u64 = 1000;

fn var(n: usize) -> Expression {
    Expression::Variable(Identifier { name: n })
}

/// The expression `Π(a0 : U) U`.
fn pi_u_u() -> Expression {
    Expression::PiType {
        tparam: Identifier { name: 0 },
        tparam_type: Box::new(Expression::Universe),
        ret_type: Box::new(Expression::Universe),
    }
}

/// The value of `Π(a0 : U) U` as a type.
fn pi_u_u_type(defs: &Definitions, ctx: &Context) -> Type {
    let v = evaluate(defs, &Environment::from_context(ctx), &pi_u_u(), FUEL).unwrap();
    Type::create_type_from_value(v)
}

#[test]
fn checks_annotated_identity_against_pi_type() {
    // check_type(∅, ∅, λ(a0 : U) a0, Π(a0 : U) U) succeeds.
    let defs = Definitions::new();
    let ctx = Context::empty();
    let a = Identifier { name: 0 };
    let lam = Expression::Lambda {
        param: a,
        param_type: Some(Box::new(Expression::Universe)),
        ret_val: Box::new(var(0)),
    };
    let ty = pi_u_u_type(&defs, &ctx);
    assert!(check_type(&defs, &ctx, &lam, &ty, FUEL).is_ok());
}

#[test]
fn checks_unannotated_identity_against_pi_type() {
    let defs = Definitions::new();
    let ctx = Context::empty();
    let a = Identifier { name: 0 };
    let lam = Expression::Lambda {
        param: a,
        param_type: None,
        ret_val: Box::new(var(0)),
    };
    let ty = pi_u_u_type(&defs, &ctx);
    assert!(check_type(&defs, &ctx, &lam, &ty, FUEL).is_ok());
}

#[test]
fn rejects_self_application_without_annotation() {
    // synth_type on λ a0. (a0)(a0) fails: an un-annotated lambda is
    // never synthesizable.
    let defs = Definitions::new();
    let ctx = Context::empty();
    let x = Identifier { name: 0 };
    let lam = Expression::Lambda {
        param: x,
        param_type: None,
        ret_val: Box::new(Expression::Application {
            func: Box::new(var(0)),
            arg: Box::new(var(0)),
        }),
    };
    match synth_type(&defs, &ctx, &lam, FUEL) {
        Ok(_) => panic!("an un-annotated lambda must not synthesize"),
        Err(e) => assert_eq!(e.kind, TypeErrorKind::UninferableLambda),
    }
}

#[test]
fn rejects_argument_of_wrong_type() {
    // With f : Π(a0 : U) U and g : Π(a0 : U) U, the argument check of
    // (f)(g) fails: g is not of type U.
    let defs = Definitions::new();
    let f = Identifier { name: 1 };
    let g = Identifier { name: 2 };
    let empty = Context::empty();
    let fn_ty = pi_u_u_type(&defs, &empty);
    let ctx = empty.extend(&f, &fn_ty).extend(&g, &fn_ty);
    let app = Expression::Application {
        func: Box::new(var(1)),
        arg: Box::new(var(2)),
    };
    match synth_type(&defs, &ctx, &app, FUEL) {
        Ok(_) => panic!("an ill-typed argument must be caught"),
        Err(e) => assert_eq!(e.kind, TypeErrorKind::TypeMismatch),
    }
}

#[test]
fn accepts_application_of_function_to_universe() {
    // With f : Π(a0 : U) U, the application (f)(U) synthesizes U.
    let defs = Definitions::new();
    let f = Identifier { name: 1 };
    let empty = Context::empty();
    let fn_ty = pi_u_u_type(&defs, &empty);
    let ctx = empty.extend(&f, &fn_ty);
    let app = Expression::Application {
        func: Box::new(var(1)),
        arg: Box::new(Expression::Universe),
    };
    let ty = synth_type(&defs, &ctx, &app, FUEL).unwrap();
    assert!(matches!(ty.0, Value::Universe));
}

#[test]
fn universe_synthesizes_universe() {
    let defs = Definitions::new();
    let ty = synth_type(&defs, &Context::empty(), &Expression::Universe, FUEL).unwrap();
    assert!(matches!(ty.0, Value::Universe));
}

#[test]
fn variable_type_comes_from_context() {
    let defs = Definitions::new();
    let x = Identifier { name: 4 };
    let ctx = Context::empty().extend(&x, &Type::universe());
    let ty = synth_type(&defs, &ctx, &var(4), FUEL).unwrap();
    assert!(matches!(ty.0, Value::Universe));
}

#[test]
fn variable_type_comes_from_definitions() {
    let x = Identifier { name: 0 };
    let defs = Definitions::new().insert(x, Type::universe(), Value::Universe);
    let ty = synth_type(&defs, &Context::empty(), &var(0), FUEL).unwrap();
    assert!(matches!(ty.0, Value::Universe));
}

#[test]
fn unbound_variable_has_no_type() {
    let defs = Definitions::new();
    match synth_type(&defs, &Context::empty(), &var(9), FUEL) {
        Ok(_) => panic!("an unbound variable must not synthesize"),
        Err(e) => assert_eq!(e.kind, TypeErrorKind::VariableNotFound),
    }
}

#[test]
fn application_of_non_function_is_rejected() {
    let defs = Definitions::new();
    let app = Expression::Application {
        func: Box::new(Expression::Universe),
        arg: Box::new(Expression::Universe),
    };
    match synth_type(&defs, &Context::empty(), &app, FUEL) {
        Ok(_) => panic!("the universe is not a function"),
        Err(e) => assert_eq!(e.kind, TypeErrorKind::NotAFunction),
    }
}

#[test]
fn unannotated_lambda_against_universe_is_rejected() {
    let defs = Definitions::new();
    let x = Identifier { name: 0 };
    let lam = Expression::Lambda {
        param: x,
        param_type: None,
        ret_val: Box::new(var(0)),
    };
    match check_type(&defs, &Context::empty(), &lam, &Type::universe(), FUEL) {
        Ok(_) => panic!("a lambda is not of the universe type"),
        Err(e) => assert_eq!(e.kind, TypeErrorKind::NotAPiType),
    }
}

#[test]
fn annotated_expression_synthesizes_its_annotation() {
    // (U : U) synthesizes U, the universe typing itself.
    let defs = Definitions::new();
    let ann = Expression::Annotation {
        expr: Box::new(Expression::Universe),
        type_: Box::new(Expression::Universe),
    };
    let ty = synth_type(&defs, &Context::empty(), &ann, FUEL).unwrap();
    assert!(matches!(ty.0, Value::Universe));
}

#[test]
fn pi_type_lives_in_the_universe() {
    let defs = Definitions::new();
    let ty = synth_type(&defs, &Context::empty(), &pi_u_u(), FUEL).unwrap();
    assert!(matches!(ty.0, Value::Universe));
}

#[test]
fn annotated_identity_synthesizes_a_pi_type() {
    let defs = Definitions::new();
    let a = Identifier { name: 0 };
    let lam = Expression::Lambda {
        param: a,
        param_type: Some(Box::new(Expression::Universe)),
        ret_val: Box::new(var(0)),
    };
    let ty = synth_type(&defs, &Context::empty(), &lam, FUEL).unwrap();
    assert!(matches!(ty.0, Value::PiType { .. }));
}

#[test]
fn type_error_messages_name_their_cause() {
    let e = alpha::TypeError { kind: TypeErrorKind::VariableNotFound };
    assert_eq!(e.message(), "variable not found");
    let e = alpha::TypeError { kind: TypeErrorKind::UninferableLambda };
    assert_eq!(
        e.message(),
        "cannot infer a type for a lambda without its parameter type"
    );
}
