use alpha::environment::{Context, Definitions};
use alpha::expression::Expression;
use alpha::fresh_identifier;
use alpha::min_excluded::min_excluded;
use alpha::value::{Closure, Type};
use alpha::Identifier;

#[test]
fn min_excluded_of_nothing() {
    assert_eq!(min_excluded(&vec![]), 0);
}

#[test]
fn min_excluded_of_zero() {
    assert_eq!(min_excluded(&vec![0]), 1);
}

#[test]
fn min_excluded_of_four() {
    assert_eq!(min_excluded(&vec![4]), 0);
}

#[test]
fn min_excluded_of_two_zero() {
    assert_eq!(min_excluded(&vec![2, 0]), 1);
}

#[test]
fn min_excluded_of_zero_one_two() {
    assert_eq!(min_excluded(&vec![0, 1, 2]), 3);
}

#[test]
fn min_excluded_of_five_two_seven() {
    assert_eq!(min_excluded(&vec![5, 2, 7]), 0);
}

#[test]
fn fresh_identifier_avoids_context_and_closure() {
    let defs = Definitions::new();
    let id0 = Identifier { name: 0 };
    let id1 = Identifier { name: 1 };
    let ctx = Context::empty()
        .extend(&id0, &Type::universe())
        .extend(&id1, &Type::universe());
    let closure = Closure::new_in_ctx(&ctx, id0, Expression::Variable(id0));
    let fresh = fresh_identifier(&defs, &ctx, &closure);
    assert_eq!(fresh.name, 2);
    assert!(fresh != id0);
    assert!(fresh != id1);
}

#[test]
fn fresh_identifier_skips_only_visible_names() {
    let defs = Definitions::new();
    let id5 = Identifier { name: 5 };
    let ctx = Context::empty().extend(&id5, &Type::universe());
    let closure = Closure::new_in_ctx(&Context::empty(), id5, Expression::Universe);
    let fresh = fresh_identifier(&defs, &ctx, &closure);
    assert_eq!(fresh.name, 0);
}

#[test]
fn fresh_identifier_avoids_definitions() {
    let id0 = Identifier { name: 0 };
    let defs = Definitions::new().insert(
        id0,
        Type::universe(),
        alpha::value::Value::Universe,
    );
    let ctx = Context::empty();
    let closure = Closure::new_in_ctx(&ctx, id0, Expression::Universe);
    let fresh = fresh_identifier(&defs, &ctx, &closure);
    assert_eq!(fresh.name, 1);
}
