use alpha::environment::{type_var, Context, Definitions};
use alpha::expression::Expression;
use alpha::value::{Closure, Type, Value};
use alpha::Identifier;
use alpha::TypeErrorKind;

#[test]
fn context_names_come_innermost_first() {
    let x = Identifier { name: 0 };
    let y = Identifier { name: 1 };
    let ctx = Context::empty()
        .extend(&x, &Type::universe())
        .extend(&y, &Type::universe());
    let names = ctx.names();
    assert_eq!(names.len(), 2);
    assert_eq!(names[0].name, 1);
    assert_eq!(names[1].name, 0);
}

#[test]
fn context_contains_declared_variables_only() {
    let x = Identifier { name: 0 };
    let ctx = Context::empty().extend(&x, &Type::universe());
    assert!(ctx.contains(&x).is_ok());
    match ctx.contains(&Identifier { name: 1 }) {
        Ok(_) => panic!("an undeclared variable must not be found"),
        Err(e) => assert_eq!(e.kind, TypeErrorKind::VariableNotFound),
    }
}

#[test]
fn definitions_shadow_by_latest_insertion() {
    let x = Identifier { name: 0 };
    let defs = Definitions::new()
        .insert(x, Type::universe(), Value::Universe)
        .insert(
            x,
            Type::universe(),
            Value::Neutral {
                neu: alpha::value::Neutral::Variable(Identifier { name: 9 }),
            },
        );
    let v = defs.lookup_value(&x).unwrap();
    assert!(matches!(v, Value::Neutral { .. }));
    assert_eq!(defs.names().len(), 2);
}

#[test]
fn type_var_prefers_the_context() {
    let x = Identifier { name: 0 };
    let pi = Type::create_type_from_value(Value::PiType {
        param_type: Box::new(Type::universe()),
        tclosure: Closure::new_in_ctx(&Context::empty(), x, Expression::Universe),
    });
    let defs = Definitions::new().insert(x, pi, Value::Universe);
    let ctx = Context::empty().extend(&x, &Type::universe());
    let t = type_var(&defs, &ctx, &x).unwrap();
    assert!(matches!(t.value(), Value::Universe));
}

#[test]
fn type_var_falls_back_to_definitions() {
    let x = Identifier { name: 0 };
    let defs = Definitions::new().insert(x, Type::universe(), Value::Universe);
    let ctx = Context::empty();
    let t = type_var(&defs, &ctx, &x).unwrap();
    assert!(matches!(t.value(), Value::Universe));
}

#[test]
fn contexts_render_outermost_first() {
    assert_eq!(Context::empty().display_string(), "\u{00B7}");
    let x = Identifier { name: 0 };
    let y = Identifier { name: 1 };
    let ctx = Context::empty()
        .extend(&x, &Type::universe())
        .extend(&y, &Type::universe());
    assert_eq!(ctx.display_string(), "a0 : U, a1 : U");
}
