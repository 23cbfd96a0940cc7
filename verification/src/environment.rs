//! Types and functions associating information to variables.

pub use crate::dictionaries::evaluate_var;
pub use crate::dictionaries::evaluate_var_spec;
pub use crate::dictionaries::Definitions;
pub use crate::dictionaries::Environment;
pub use crate::dictionaries::FlatEnvironment;
pub use crate::lists::ctx_extend_spec;
pub use crate::lists::list::LookupList;
pub use crate::lists::list::LookupListIterator;
pub use crate::lists::type_var;
pub use crate::lists::type_var_spec;
pub use crate::lists::Context;
pub use crate::lists::Names;
