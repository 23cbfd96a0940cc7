//! The term language: trees that compute to [`Value`](crate::value::Value)s.

use vstd::prelude::*;

use vstd::string::StringExecFns;

use crate::identifier::Identifier;

verus! {

/// Computes to a [`Value`](crate::value::Value).
///
/// An owned, acyclic, immutable tree.  The parameter type is optional
/// only on `Lambda`: an un-annotated lambda can be checked against a
/// known Pi type but never synthesized on its own.
#[derive(Debug)]
pub enum Expression {
    Variable(Identifier),
    PiType { tparam: Identifier, tparam_type: Box<Expression>, ret_type: Box<Expression> },
    Lambda { param: Identifier, param_type: Option<Box<Expression>>, ret_val: Box<Expression> },
    Application { func: Box<Expression>, arg: Box<Expression> },
    Universe,
    Annotation { expr: Box<Expression>, type_: Box<Expression> },
}

impl Expression {
    /// The human-readable rendering of the expression: `U` for the
    /// universe, Pi and lambda with their binders, application as
    /// parenthesized juxtaposition, and annotation as `(e : t)`.
    pub open spec fn display_spec(self) -> Seq<char>
        decreases self,
    {
        match self {
            Expression::Variable(id) => id.display_spec(),
            Expression::PiType { tparam, tparam_type, ret_type } => "\u{220F}("@
                + tparam.display_spec() + " : "@ + tparam_type.display_spec() + ")"@
                + ret_type.display_spec(),
            Expression::Lambda { param, param_type: Some(t), ret_val } => "\u{03BB}("@
                + param.display_spec() + " : "@ + t.display_spec() + ")"@
                + ret_val.display_spec(),
            Expression::Lambda { param, param_type: None, ret_val } => "\u{03BB}"@
                + param.display_spec() + "."@ + ret_val.display_spec(),
            Expression::Application { func, arg } => "("@ + func.display_spec() + ")("@
                + arg.display_spec() + ")"@,
            Expression::Universe => "U"@,
            Expression::Annotation { expr, type_ } => "("@ + expr.display_spec() + " : "@
                + type_.display_spec() + ")"@,
        }
    }

    /// Renders the expression for diagnostics.
    pub fn display_string(&self) -> (r: String)
        ensures
            r@ == self.display_spec(),
        decreases *self,
    {
        match self {
            Expression::Variable(id) => id.display_string(),
            Expression::PiType { tparam, tparam_type, ret_type } => {
                let mut s = String::from_str("\u{220F}(");
                s.append(tparam.display_string().as_str());
                s.append(" : ");
                s.append(tparam_type.display_string().as_str());
                s.append(")");
                s.append(ret_type.display_string().as_str());
                proof {
                    assert(s@ =~= self.display_spec());
                }
                s
            },
            Expression::Lambda { param, param_type: Some(t), ret_val } => {
                let mut s = String::from_str("\u{03BB}(");
                s.append(param.display_string().as_str());
                s.append(" : ");
                s.append(t.display_string().as_str());
                s.append(")");
                s.append(ret_val.display_string().as_str());
                proof {
                    assert(s@ =~= self.display_spec());
                }
                s
            },
            Expression::Lambda { param, param_type: None, ret_val } => {
                let mut s = String::from_str("\u{03BB}");
                s.append(param.display_string().as_str());
                s.append(".");
                s.append(ret_val.display_string().as_str());
                proof {
                    assert(s@ =~= self.display_spec());
                }
                s
            },
            Expression::Application { func, arg } => {
                let mut s = String::from_str("(");
                s.append(func.display_string().as_str());
                s.append(")(");
                s.append(arg.display_string().as_str());
                s.append(")");
                proof {
                    assert(s@ =~= self.display_spec());
                }
                s
            },
            Expression::Universe => String::from_str("U"),
            Expression::Annotation { expr, type_ } => {
                let mut s = String::from_str("(");
                s.append(expr.display_string().as_str());
                s.append(" : ");
                s.append(type_.display_string().as_str());
                s.append(")");
                proof {
                    assert(s@ =~= self.display_spec());
                }
                s
            },
        }
    }
}

impl Clone for Expression {
    fn clone(&self) -> (r: Self)
        ensures
            r == *self,
    {
        clone_expression(self)
    }
}

/// Copies an expression tree; the copy equals the original.
pub fn clone_expression(e: &Expression) -> (r: Expression)
    ensures
        r == *e,
    decreases *e,
{
    match e {
        Expression::Variable(id) => Expression::Variable(*id),
        Expression::PiType { tparam, tparam_type, ret_type } => Expression::PiType {
            tparam: *tparam,
            tparam_type: Box::new(clone_expression(tparam_type)),
            ret_type: Box::new(clone_expression(ret_type)),
        },
        Expression::Lambda { param, param_type, ret_val } => Expression::Lambda {
            param: *param,
            param_type: match param_type {
                Some(t) => Some(Box::new(clone_expression(t))),
                None => None,
            },
            ret_val: Box::new(clone_expression(ret_val)),
        },
        Expression::Application { func, arg } => Expression::Application {
            func: Box::new(clone_expression(func)),
            arg: Box::new(clone_expression(arg)),
        },
        Expression::Universe => Expression::Universe,
        Expression::Annotation { expr, type_ } => Expression::Annotation {
            expr: Box::new(clone_expression(expr)),
            type_: Box::new(clone_expression(type_)),
        },
    }
}

} // verus!
