use vstd::prelude::*;

verus! {

/// The ways type synthesis, type checking and normalization can fail.
#[derive(Clone, Copy, PartialEq, Eq, Structural, Debug)]
pub enum TypeErrorKind {
    /// A name absent from both the context and the global definitions.
    VariableNotFound,
    /// An application whose function has a non-Pi synthesized type.
    NotAFunction,
    /// An un-annotated lambda checked against a non-Pi expected type.
    NotAPiType,
    /// A synthesized type not judgmentally equal to the expected type.
    TypeMismatch,
    /// An attempt to synthesize a type for an un-annotated lambda.
    UninferableLambda,
    /// Two normal forms that are not alpha-equivalent.
    NotAlphaEquivalent,
    /// An internal invariant was violated: a term reached evaluation or
    /// read-back that the checker should have rejected first.
    InternalError,
    /// The fuel bound ran out before the computation finished, the
    /// explicit form of resource exhaustion in a self-typed universe.
    OutOfFuel,
}

/// The error type for type synthesis, type checking and normalization.
#[derive(Clone, Copy, PartialEq, Eq, Structural, Debug)]
pub struct TypeError {
    pub kind: TypeErrorKind,
}

/// The description [`TypeError::message`] returns for each error kind.
pub open spec fn spec_message(kind: TypeErrorKind) -> Seq<char> {
    match kind {
        TypeErrorKind::VariableNotFound => "variable not found"@,
        TypeErrorKind::NotAFunction => "cannot call a term of non-function type"@,
        TypeErrorKind::NotAPiType => "all lambda terms are of pi types"@,
        TypeErrorKind::TypeMismatch => "the synthesized type does not match the expected type"@,
        TypeErrorKind::UninferableLambda => "cannot infer a type for a lambda without its parameter type"@,
        TypeErrorKind::NotAlphaEquivalent => "the normal forms are not alpha-equivalent"@,
        TypeErrorKind::InternalError => "internal invariant violated"@,
        TypeErrorKind::OutOfFuel => "ran out of fuel"@,
    }
}

impl TypeError {
    /// A short human-readable description of the error.
    pub fn message(&self) -> (r: &'static str)
        ensures
            r@ == spec_message(self.kind),
    {
        match self.kind {
            TypeErrorKind::VariableNotFound => "variable not found",
            TypeErrorKind::NotAFunction => "cannot call a term of non-function type",
            TypeErrorKind::NotAPiType => "all lambda terms are of pi types",
            TypeErrorKind::TypeMismatch => "the synthesized type does not match the expected type",
            TypeErrorKind::UninferableLambda => "cannot infer a type for a lambda without its parameter type",
            TypeErrorKind::NotAlphaEquivalent => "the normal forms are not alpha-equivalent",
            TypeErrorKind::InternalError => "internal invariant violated",
            TypeErrorKind::OutOfFuel => "ran out of fuel",
        }
    }
}

} // verus!
