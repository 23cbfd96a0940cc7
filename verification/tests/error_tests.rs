use alpha::environment::{Context, Definitions, Environment};
use alpha::evaluation::evaluate;
use alpha::expression::Expression;
use alpha::read_back::read_back_typed;
use alpha::value::{Closure, Type, Value};
use alpha::Identifier;
use alpha::TypeErrorKind;

const FUEL: u64 = 1000;

#[test]
fn applying_the_universe_violates_an_internal_invariant() {
    // (U)(U) is ill-typed; the evaluator reports the invariant
    // violation rather than producing a value, since nothing
    // type-checked the term first.
    let defs = Definitions::new();
    let app = Expression::Application {
        func: Box::new(Expression::Universe),
        arg: Box::new(Expression::Universe),
    };
    match evaluate(&defs, &Environment::empty(), &app, FUEL) {
        Ok(_) => panic!("the universe cannot be applied"),
        Err(e) => assert_eq!(e.kind, TypeErrorKind::InternalError),
    }
}

#[test]
fn reading_back_a_lambda_as_a_type_violates_an_internal_invariant() {
    // A lambda value does not inhabit the universe, so presenting it
    // as a type is a kind mismatch the checker should have prevented.
    let defs = Definitions::new();
    let ctx = Context::empty();
    let x = Identifier { name: 0 };
    let lam = Value::Lambda {
        closure: Closure::new_in_ctx(&ctx, x, Expression::Variable(x)),
    };
    match read_back_typed(&defs, &ctx, &lam, &Type::universe(), FUEL) {
        Ok(_) => panic!("a lambda is not a type"),
        Err(e) => assert_eq!(e.kind, TypeErrorKind::InternalError),
    }
}

#[test]
fn a_lambda_type_cannot_classify_anything() {
    let defs = Definitions::new();
    let ctx = Context::empty();
    let x = Identifier { name: 0 };
    let lam_ty = Type::create_type_from_value(Value::Lambda {
        closure: Closure::new_in_ctx(&ctx, x, Expression::Variable(x)),
    });
    match read_back_typed(&defs, &ctx, &Value::Universe, &lam_ty, FUEL) {
        Ok(_) => panic!("a lambda can never classify a value"),
        Err(e) => assert_eq!(e.kind, TypeErrorKind::InternalError),
    }
}

#[test]
fn double_application_of_identity_normalizes() {
    // ((λ a0. a0)(λ a1. a1))(U) evaluates through two beta steps to U.
    let defs = Definitions::new();
    let inner = Expression::Lambda {
        param: Identifier { name: 1 },
        param_type: None,
        ret_val: Box::new(Expression::Variable(Identifier { name: 1 })),
    };
    let outer = Expression::Lambda {
        param: Identifier { name: 0 },
        param_type: None,
        ret_val: Box::new(Expression::Variable(Identifier { name: 0 })),
    };
    let app = Expression::Application {
        func: Box::new(Expression::Application {
            func: Box::new(outer),
            arg: Box::new(inner),
        }),
        arg: Box::new(Expression::Universe),
    };
    let v = evaluate(&defs, &Environment::empty(), &app, FUEL).unwrap();
    assert!(matches!(v, Value::Universe));
}
