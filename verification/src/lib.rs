//! Normalization by evaluation and bidirectional type checking for a
//! spartan dependent type theory: one self-typed universe `U`, dependent
//! function types, lambda abstraction, application and type annotation.
//!
//! Terms are built programmatically as [`expression::Expression`] trees,
//! evaluated to [`value::Value`]s, read back to beta-normal eta-long
//! expressions, and compared up to alpha-equivalence.  Because the
//! universe types itself, evaluation and normalization are not total;
//! every function that may diverge takes an explicit fuel bound and
//! reports exhaustion as an ordinary error.

mod dictionaries;
pub mod equivalence;
pub mod evaluation;
pub mod expression;
mod identifier;
mod lists;
pub mod min_excluded;
pub mod read_back;
mod type_error;
pub mod typing;
pub mod value;

pub mod environment;

pub use crate::identifier::fresh_identifier;
pub use crate::identifier::Identifier;
pub use crate::type_error::TypeError;
pub use crate::type_error::TypeErrorKind;
