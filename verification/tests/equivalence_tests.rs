use alpha::environment::{Context, Definitions, Environment};
use alpha::equivalence::{alpha_equivalent, judgmentally_equal};
use alpha::evaluation::evaluate;
use alpha::expression::Expression;
use alpha::read_back::read_back_typed;
use alpha::value::{Neutral, Type, Value};
use alpha::Identifier;
use alpha::TypeErrorKind;

const FUEL: u64 = 1000;

fn var(n: usize) -> Expression {
    Expression::Variable(Identifier { name: n })
}

fn unannotated_lambda(param: usize, body: Expression) -> Expression {
    Expression::Lambda {
        param: Identifier { name: param },
        param_type: None,
        ret_val: Box::new(body),
    }
}

/// The value of `Π(a0 : U) U` as a type.
fn pi_u_u_type(defs: &Definitions, ctx: &Context) -> Type {
    let pi = Expression::PiType {
        tparam: Identifier { name: 0 },
        tparam_type: Box::new(Expression::Universe),
        ret_type: Box::new(Expression::Universe),
    };
    let v = evaluate(defs, &Environment::from_context(ctx), &pi, FUEL).unwrap();
    Type::create_type_from_value(v)
}

#[test]
fn bound_variables_compare_by_position() {
    // λ a0. a0 and λ a1. a1 are alpha-equivalent.
    let l = unannotated_lambda(0, var(0));
    let r = unannotated_lambda(1, var(1));
    assert!(alpha_equivalent(&l, &r).is_ok());
}

#[test]
fn renaming_a_bound_variable_keeps_the_equivalence_class() {
    // Π(a0 : U) a0 stays alpha-equivalent after its binder is renamed
    // throughout to a name not otherwise free.
    let l = Expression::PiType {
        tparam: Identifier { name: 0 },
        tparam_type: Box::new(Expression::Universe),
        ret_type: Box::new(var(0)),
    };
    let r = Expression::PiType {
        tparam: Identifier { name: 7 },
        tparam_type: Box::new(Expression::Universe),
        ret_type: Box::new(var(7)),
    };
    assert!(alpha_equivalent(&l, &r).is_ok());
    assert!(alpha_equivalent(&r, &l).is_ok());
}

#[test]
fn different_bodies_are_not_alpha_equivalent() {
    let l = unannotated_lambda(0, var(0));
    let r = unannotated_lambda(0, Expression::Universe);
    match alpha_equivalent(&l, &r) {
        Ok(_) => panic!("distinct bodies must not be alpha-equivalent"),
        Err(e) => assert_eq!(e.kind, TypeErrorKind::NotAlphaEquivalent),
    }
}

#[test]
fn free_variables_compare_by_name() {
    assert!(alpha_equivalent(&var(3), &var(3)).is_ok());
    assert!(alpha_equivalent(&var(3), &var(4)).is_err());
}

#[test]
fn annotation_presence_must_agree() {
    let l = unannotated_lambda(0, var(0));
    let r = Expression::Lambda {
        param: Identifier { name: 0 },
        param_type: Some(Box::new(Expression::Universe)),
        ret_val: Box::new(var(0)),
    };
    assert!(alpha_equivalent(&l, &r).is_err());
}

#[test]
fn bound_and_free_occurrences_differ() {
    // In λ a0. a0 the body is bound; in λ a1. a0 it is free.
    let l = unannotated_lambda(0, var(0));
    let r = unannotated_lambda(1, var(0));
    assert!(alpha_equivalent(&l, &r).is_err());
}

#[test]
fn universe_is_judgmentally_equal_to_itself() {
    let defs = Definitions::new();
    let ctx = Context::empty();
    let r = judgmentally_equal(
        &defs,
        &ctx,
        &Value::Universe,
        &Value::Universe,
        &Type::universe(),
        FUEL,
    );
    assert!(r.is_ok());
}

#[test]
fn universe_and_pi_type_are_not_judgmentally_equal() {
    let defs = Definitions::new();
    let ctx = Context::empty();
    let pi = pi_u_u_type(&defs, &ctx);
    let r = judgmentally_equal(&defs, &ctx, &Value::Universe, &pi.0, &Type::universe(), FUEL);
    match r {
        Ok(_) => panic!("the universe is not a pi type"),
        Err(e) => assert_eq!(e.kind, TypeErrorKind::NotAlphaEquivalent),
    }
}

#[test]
fn eta_expansion_of_neutral_function() {
    // A neutral variable of Pi type reads back as a lambda, eta-long.
    let defs = Definitions::new();
    let f = Identifier { name: 1 };
    let empty = Context::empty();
    let fn_ty = pi_u_u_type(&defs, &empty);
    let ctx = empty.extend(&f, &fn_ty);
    let neutral_f = Value::Neutral { neu: Neutral::Variable(f) };
    let nf = read_back_typed(&defs, &ctx, &neutral_f, &fn_ty, FUEL).unwrap();
    assert!(matches!(nf, Expression::Lambda { .. }));
}

#[test]
fn universe_reads_back_as_universe() {
    let defs = Definitions::new();
    let nf = read_back_typed(
        &defs,
        &Context::empty(),
        &Value::Universe,
        &Type::universe(),
        FUEL,
    )
    .unwrap();
    assert!(matches!(nf, Expression::Universe));
}

#[test]
fn normalization_is_idempotent_on_a_neutral_function() {
    // Read back a value, re-evaluate the result, read it back again:
    // the two normal forms are alpha-equivalent.
    let defs = Definitions::new();
    let f = Identifier { name: 1 };
    let empty = Context::empty();
    let fn_ty = pi_u_u_type(&defs, &empty);
    let ctx = empty.extend(&f, &fn_ty);
    let neutral_f = Value::Neutral { neu: Neutral::Variable(f) };
    let first = read_back_typed(&defs, &ctx, &neutral_f, &fn_ty, FUEL).unwrap();
    let again = evaluate(&defs, &Environment::from_context(&ctx), &first, FUEL).unwrap();
    let second = read_back_typed(&defs, &ctx, &again, &fn_ty, FUEL).unwrap();
    assert!(alpha_equivalent(&first, &second).is_ok());
}

#[test]
fn normalization_is_idempotent_on_a_pi_type_value() {
    let defs = Definitions::new();
    let ctx = Context::empty();
    let pi = pi_u_u_type(&defs, &ctx);
    let first = read_back_typed(&defs, &ctx, &pi.0, &Type::universe(), FUEL).unwrap();
    let again = evaluate(&defs, &Environment::from_context(&ctx), &first, FUEL).unwrap();
    let second = read_back_typed(&defs, &ctx, &again, &Type::universe(), FUEL).unwrap();
    assert!(alpha_equivalent(&first, &second).is_ok());
}

#[test]
fn beta_equal_values_are_judgmentally_equal() {
    // (λ a0. a0)(U) and U are the same value after evaluation, so they
    // are judgmentally equal at the universe.
    let defs = Definitions::new();
    let ctx = Context::empty();
    let app = Expression::Application {
        func: Box::new(unannotated_lambda(0, var(0))),
        arg: Box::new(Expression::Universe),
    };
    let lhs = evaluate(&defs, &Environment::from_context(&ctx), &app, FUEL).unwrap();
    let r = judgmentally_equal(&defs, &ctx, &lhs, &Value::Universe, &Type::universe(), FUEL);
    assert!(r.is_ok());
}
