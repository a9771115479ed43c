//! Classified validation errors.

use vstd::prelude::*;

verus! {

/// The four kinds of validation error.
#[derive(Clone, Copy, Debug, PartialEq, Eq, Structural)]
pub enum ErrorKind {
    /// The record is not the implementation of a generic interface with a
    /// type argument.
    StructuralError,
    /// A method does not take exactly two inputs, or is variadic.
    ArityError,
    /// The receiver and the other input of a method are not taken alike.
    ShapeMismatchError,
    /// The other input of a method is not bound to a name.
    PatternError,
}

/// The rule that a record breaks.
#[derive(Clone, Copy, Debug, PartialEq, Eq, Structural)]
pub enum Violation {
    /// The record implements no interface.
    NotAnInterface,
    /// The record declares that the interface is not implemented.
    NegatedInterface,
    /// The interface has no bracketed argument list.
    NotGeneric,
    /// No argument of the interface is a type.
    NoTypeArgument,
    /// A method is variadic.
    Variadic,
    /// A method does not take exactly two inputs.
    Arity,
    /// The first input of a method is not a receiver.
    MissingReceiver,
    /// The receiver is a reference and the other input is not.
    ExpectedReference,
    /// The receiver is taken by value and the other input is a reference.
    UnexpectedReference,
    /// Of the receiver and the other input, exactly one is `mut`. A value
    /// is `mut` where the name that binds it is; a pattern that is no name
    /// is not.
    Mutability,
    /// The receiver and the other input are references that do not name the
    /// same lifetime.
    Lifetime,
    /// The other input is bound by a pattern that is not a name.
    ExpectedIdent,
}

/// The construct of the record at which an error is reported.
#[derive(Clone, Copy, Debug, PartialEq, Eq, Structural)]
pub enum Location {
    /// The place where the mirror was asked for.
    CallSite,
    /// The `!` in front of the interface.
    Negation,
    /// The path of the interface.
    InterfacePath,
    /// The bracketed argument list of the interface.
    InterfaceArguments,
    /// The `...` of the method at position `item` among the members.
    Variadic { item: usize },
    /// The inputs of the method at position `item`.
    Inputs { item: usize },
    /// The first input of the method at position `item`.
    FirstInput { item: usize },
    /// The second input of the method at position `item`.
    OtherInput { item: usize },
    /// The pattern of the second input of the method at position `item`.
    OtherPattern { item: usize },
}

/// A validation error: the rule that is broken and where.
#[derive(Clone, Copy, Debug, PartialEq, Eq, Structural)]
pub struct ClassifiedError {
    pub violation: Violation,
    pub location: Location,
}

impl Violation {
    /// The kind of error that breaking this rule is.
    pub open spec fn spec_kind(self) -> ErrorKind {
        match self {
            Violation::NotAnInterface
            | Violation::NegatedInterface
            | Violation::NotGeneric
            | Violation::NoTypeArgument => ErrorKind::StructuralError,
            Violation::Variadic | Violation::Arity => ErrorKind::ArityError,
            Violation::MissingReceiver
            | Violation::ExpectedReference
            | Violation::UnexpectedReference
            | Violation::Mutability
            | Violation::Lifetime => ErrorKind::ShapeMismatchError,
            Violation::ExpectedIdent => ErrorKind::PatternError,
        }
    }

    /// The message that reports this rule as broken.
    pub open spec fn spec_message(self) -> Seq<char> {
        match self {
            Violation::NotAnInterface => "#[symmetric] can only be used on trait implementation"@,
            Violation::NegatedInterface => "#[symmetric] cannot be used on negative trait bound"@,
            Violation::NotGeneric => "expected a generic trait"@,
            Violation::NoTypeArgument => "symmetric trait must contain at least 1 type argument"@,
            Violation::Variadic => "method in a symmetric trait cannot be variadic"@,
            Violation::Arity => "expected 2 arguments"@,
            Violation::MissingReceiver => "expected a receiver"@,
            Violation::ExpectedReference => "expected a reference"@,
            Violation::UnexpectedReference => "unexpected reference"@,
            Violation::Mutability => "mismatched mutability"@,
            Violation::Lifetime => "mismatched lifetime"@,
            Violation::ExpectedIdent => "expected an ident"@,
        }
    }

    /// The kind of error that breaking this rule is.
    #[verifier::when_used_as_spec(spec_kind)]
    pub fn kind(self) -> (kind: ErrorKind)
        ensures
            kind == self.spec_kind(),
    {
        match self {
            Violation::NotAnInterface
            | Violation::NegatedInterface
            | Violation::NotGeneric
            | Violation::NoTypeArgument => ErrorKind::StructuralError,
            Violation::Variadic | Violation::Arity => ErrorKind::ArityError,
            Violation::MissingReceiver
            | Violation::ExpectedReference
            | Violation::UnexpectedReference
            | Violation::Mutability
            | Violation::Lifetime => ErrorKind::ShapeMismatchError,
            Violation::ExpectedIdent => ErrorKind::PatternError,
        }
    }

    /// The message that reports this rule as broken.
    pub fn message(self) -> (message: String)
        ensures
            message@ == self.spec_message(),
    {
        match self {
            Violation::NotAnInterface => {
                "#[symmetric] can only be used on trait implementation".to_owned()
            },
            Violation::NegatedInterface => {
                "#[symmetric] cannot be used on negative trait bound".to_owned()
            },
            Violation::NotGeneric => "expected a generic trait".to_owned(),
            Violation::NoTypeArgument => {
                "symmetric trait must contain at least 1 type argument".to_owned()
            },
            Violation::Variadic => "method in a symmetric trait cannot be variadic".to_owned(),
            Violation::Arity => "expected 2 arguments".to_owned(),
            Violation::MissingReceiver => "expected a receiver".to_owned(),
            Violation::ExpectedReference => "expected a reference".to_owned(),
            Violation::UnexpectedReference => "unexpected reference".to_owned(),
            Violation::Mutability => "mismatched mutability".to_owned(),
            Violation::Lifetime => "mismatched lifetime".to_owned(),
            Violation::ExpectedIdent => "expected an ident".to_owned(),
        }
    }
}

impl ClassifiedError {
    /// The kind of this error.
    pub fn kind(&self) -> (kind: ErrorKind)
        ensures
            kind == self.violation.spec_kind(),
    {
        self.violation.kind()
    }

    /// The message of this error.
    pub fn message(&self) -> (message: String)
        ensures
            message@ == self.violation.spec_message(),
    {
        self.violation.message()
    }
}

} // verus!
