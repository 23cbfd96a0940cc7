use alpha::environment::{Context, Definitions, Environment, LookupList, LookupListIterator};
use alpha::evaluation::evaluate;
use alpha::expression::Expression;
use alpha::value::Type;
use alpha::Identifier;

fn var(n: usize) -> Expression {
    Expression::Variable(Identifier { name: n })
}

#[test]
fn identifiers_render_with_their_key() {
    assert_eq!(Identifier { name: 0 }.display_string(), "a0");
    assert_eq!(Identifier { name: 42 }.display_string(), "a42");
    assert_eq!(Identifier { name: 107 }.display_string(), "a107");
}

#[test]
fn lambda_expressions_render_with_binder() {
    let unannotated = Expression::Lambda {
        param: Identifier { name: 0 },
        param_type: None,
        ret_val: Box::new(var(0)),
    };
    assert_eq!(unannotated.display_string(), "\u{03BB}a0.a0");
    let annotated = Expression::Lambda {
        param: Identifier { name: 1 },
        param_type: Some(Box::new(Expression::Universe)),
        ret_val: Box::new(var(1)),
    };
    assert_eq!(annotated.display_string(), "\u{03BB}(a1 : U)a1");
}

#[test]
fn pi_application_and_annotation_render() {
    let pi = Expression::PiType {
        tparam: Identifier { name: 0 },
        tparam_type: Box::new(Expression::Universe),
        ret_type: Box::new(var(0)),
    };
    assert_eq!(pi.display_string(), "\u{220F}(a0 : U)a0");
    let app = Expression::Application {
        func: Box::new(var(0)),
        arg: Box::new(var(1)),
    };
    assert_eq!(app.display_string(), "(a0)(a1)");
    let ann = Expression::Annotation {
        expr: Box::new(Expression::Universe),
        type_: Box::new(Expression::Universe),
    };
    assert_eq!(ann.display_string(), "(U : U)");
}

#[test]
fn values_render_like_their_sources() {
    let defs = Definitions::new();
    let pi = Expression::PiType {
        tparam: Identifier { name: 0 },
        tparam_type: Box::new(Expression::Universe),
        ret_type: Box::new(Expression::Universe),
    };
    let v = evaluate(&defs, &Environment::empty(), &pi, 100).unwrap();
    assert_eq!(v.display_string(), "\u{220F}(a0 : U)U");
    let x = Identifier { name: 3 };
    let ctx = Context::empty().extend(&x, &Type::universe());
    let neutral = evaluate(&defs, &Environment::from_context(&ctx), &var(3), 100).unwrap();
    assert_eq!(neutral.display_string(), "a3");
}

#[test]
fn lookup_list_iterator_walks_innermost_first() {
    let x = Identifier { name: 0 };
    let y = Identifier { name: 1 };
    let ctx = Context::empty()
        .extend(&x, &Type::universe())
        .extend(&y, &Type::universe());
    let mut it = LookupListIterator::new(&ctx.0);
    let first = it.next().expect("two bindings were made");
    assert_eq!(first.0.name, 1);
    let second = it.next().expect("one binding is left");
    assert_eq!(second.0.name, 0);
    assert!(it.next().is_none());
    assert!(matches!(it.ptr, LookupList::Empty));
}
