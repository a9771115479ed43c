//! Type expressions and references to interfaces.
//!
//! Every executable type `T` of this crate's records has a ghost twin
//! `TModel`, in which text is a `Seq<char>` and a list is a `Seq`; `t@` is the
//! twin of `t`. The contracts speak of the twins.

use vstd::prelude::*;

verus! {

/// The view of an optional piece of text.
pub open spec fn text_opt(text: Option<String>) -> Option<Seq<char>> {
    match text {
        Some(t) => Some(t@),
        None => None,
    }
}

/// Model of a [`TypeExpr`].
pub enum TypeModel {
    Reference { lifetime: Option<Seq<char>>, mutable: bool, elem: Box<TypeModel> },
    Verbatim(Seq<char>),
}

/// A type expression, read only as far as the transformation needs: a
/// reference type is taken apart, any other type is kept as its source text.
#[derive(Debug, PartialEq, Eq)]
pub enum TypeExpr {
    /// `&'lifetime mut elem`, with the lifetime and `mut` optional.
    Reference { lifetime: Option<String>, mutable: bool, elem: Box<TypeExpr> },
    /// Any type that is not a reference, as written.
    Verbatim(String),
}

impl TypeExpr {
    /// The model of this type expression, layer by layer.
    pub open spec fn model(&self) -> TypeModel
        decreases self,
    {
        match self {
            TypeExpr::Reference { lifetime, mutable, elem } => TypeModel::Reference {
                lifetime: text_opt(*lifetime),
                mutable: *mutable,
                elem: Box::new(elem.model()),
            },
            TypeExpr::Verbatim(text) => TypeModel::Verbatim(text@),
        }
    }
}

impl View for TypeExpr {
    type V = TypeModel;

    open spec fn view(&self) -> TypeModel {
        self.model()
    }
}

/// A copy of an optional piece of text.
pub fn clone_text_opt(text: &Option<String>) -> (copy: Option<String>)
    ensures
        text_opt(copy) == text_opt(*text),
{
    match text {
        Some(t) => Some(t.clone()),
        None => None,
    }
}

impl Clone for TypeExpr {
    fn clone(&self) -> (copy: Self)
        ensures
            copy@ == self@,
        decreases self,
    {
        match self {
            TypeExpr::Reference { lifetime, mutable, elem } => TypeExpr::Reference {
                lifetime: clone_text_opt(lifetime),
                mutable: *mutable,
                elem: Box::new((**elem).clone()),
            },
            TypeExpr::Verbatim(text) => TypeExpr::Verbatim(text.clone()),
        }
    }
}

/// Model of a [`GenericArg`].
pub enum GenericArgModel {
    Lifetime(Seq<char>),
    Type(TypeModel),
    Other(Seq<char>),
}

/// One argument of an interface's bracketed argument list.
#[derive(Debug, PartialEq, Eq)]
pub enum GenericArg {
    /// A lifetime, such as `'a`.
    Lifetime(String),
    /// A type.
    Type(TypeExpr),
    /// A constant, a binding or a constraint, as written.
    Other(String),
}

impl View for GenericArg {
    type V = GenericArgModel;

    open spec fn view(&self) -> GenericArgModel {
        match self {
            GenericArg::Lifetime(name) => GenericArgModel::Lifetime(name@),
            GenericArg::Type(ty) => GenericArgModel::Type(ty@),
            GenericArg::Other(text) => GenericArgModel::Other(text@),
        }
    }
}

impl Clone for GenericArg {
    fn clone(&self) -> (copy: Self)
        ensures
            copy@ == self@,
    {
        match self {
            GenericArg::Lifetime(name) => GenericArg::Lifetime(name.clone()),
            GenericArg::Type(ty) => GenericArg::Type(ty.clone()),
            GenericArg::Other(text) => GenericArg::Other(text.clone()),
        }
    }
}

/// The models of a list of arguments, in order.
pub open spec fn args_model(args: Seq<GenericArg>) -> Seq<GenericArgModel> {
    Seq::new(args.len(), |i: int| args[i]@)
}

/// A copy of a list of arguments.
pub fn clone_args(args: &Vec<GenericArg>) -> (copy: Vec<GenericArg>)
    ensures
        args_model(copy@) == args_model(args@),
{
    let mut copy: Vec<GenericArg> = Vec::new();
    let mut i: usize = 0;
    while i < args.len()
        invariant
            i <= args.len(),
            copy.len() == i,
            forall|j: int| 0 <= j < i ==> copy[j]@ == args[j]@,
        decreases args.len() - i,
    {
        copy.push(args[i].clone());
        i += 1;
    }
    assert(args_model(copy@) =~= args_model(args@));
    copy
}

/// Model of [`PathArguments`].
pub enum PathArgumentsModel {
    Absent,
    AngleBracketed(Seq<GenericArgModel>),
    Parenthesized(Seq<char>),
}

/// What follows the last name of an interface's path.
#[derive(Debug, PartialEq, Eq)]
pub enum PathArguments {
    /// Nothing: the interface is not generic.
    Absent,
    /// A bracketed argument list, `<A, B>`.
    AngleBracketed(Vec<GenericArg>),
    /// A parenthesized list as in `Fn(A) -> B`, as written.
    Parenthesized(String),
}

impl View for PathArguments {
    type V = PathArgumentsModel;

    open spec fn view(&self) -> PathArgumentsModel {
        match self {
            PathArguments::Absent => PathArgumentsModel::Absent,
            PathArguments::AngleBracketed(args) => PathArgumentsModel::AngleBracketed(
                args_model(args@),
            ),
            PathArguments::Parenthesized(text) => PathArgumentsModel::Parenthesized(text@),
        }
    }
}

impl Clone for PathArguments {
    fn clone(&self) -> (copy: Self)
        ensures
            copy@ == self@,
    {
        match self {
            PathArguments::Absent => PathArguments::Absent,
            PathArguments::AngleBracketed(args) => PathArguments::AngleBracketed(clone_args(args)),
            PathArguments::Parenthesized(text) => PathArguments::Parenthesized(text.clone()),
        }
    }
}

/// Model of an [`InterfaceRef`].
pub struct InterfaceModel {
    pub negated: bool,
    pub path: Seq<char>,
    pub arguments: PathArgumentsModel,
}

/// A reference to the interface that a record implements.
#[derive(Debug, PartialEq, Eq)]
pub struct InterfaceRef {
    /// Whether the record declares that the interface is *not* implemented.
    pub negated: bool,
    /// The path up to and including the interface's name, as written.
    pub path: String,
    /// What follows the name.
    pub arguments: PathArguments,
}

impl View for InterfaceRef {
    type V = InterfaceModel;

    open spec fn view(&self) -> InterfaceModel {
        InterfaceModel { negated: self.negated, path: self.path@, arguments: self.arguments@ }
    }
}

impl Clone for InterfaceRef {
    fn clone(&self) -> (copy: Self)
        ensures
            copy@ == self@,
    {
        InterfaceRef {
            negated: self.negated,
            path: self.path.clone(),
            arguments: self.arguments.clone(),
        }
    }
}

/// The view of an optional string slice.
pub open spec fn str_opt(text: Option<&str>) -> Option<Seq<char>> {
    match text {
        Some(t) => Some(t@),
        None => None,
    }
}

/// An owned copy of an optional string slice.
pub fn own_text_opt(text: Option<&str>) -> (owned: Option<String>)
    ensures
        text_opt(owned) == str_opt(text),
{
    match text {
        Some(t) => Some(t.to_owned()),
        None => None,
    }
}

impl TypeExpr {
    /// A type that is not a reference, from its source text.
    pub fn verbatim(text: &str) -> (ty: TypeExpr)
        ensures
            ty@ == TypeModel::Verbatim(text@),
    {
        TypeExpr::Verbatim(text.to_owned())
    }

    /// The reference type `&'lifetime mut elem`, with the lifetime and `mut`
    /// as given.
    pub fn reference(lifetime: Option<&str>, mutable: bool, elem: TypeExpr) -> (ty: TypeExpr)
        ensures
            ty@ == (TypeModel::Reference {
                lifetime: str_opt(lifetime),
                mutable,
                elem: Box::new(elem@),
            }),
    {
        TypeExpr::Reference { lifetime: own_text_opt(lifetime), mutable, elem: Box::new(elem) }
    }
}

impl InterfaceRef {
    /// The reference `path<arguments>` to a generic interface.
    pub fn new(path: &str, arguments: Vec<GenericArg>) -> (interface: InterfaceRef)
        ensures
            interface@ == (InterfaceModel {
                negated: false,
                path: path@,
                arguments: PathArgumentsModel::AngleBracketed(args_model(arguments@)),
            }),
    {
        InterfaceRef {
            negated: false,
            path: path.to_owned(),
            arguments: PathArguments::AngleBracketed(arguments),
        }
    }
}

} // verus!
