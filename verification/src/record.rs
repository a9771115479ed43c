//! Implementation records and their members.
//!
//! What the transformation reads is taken apart; everything else (attributes,
//! qualifiers, generic parameters, bodies) is carried as the text it was
//! written as.

use vstd::prelude::*;
use crate::interface::{
    own_text_opt, str_opt, text_opt, InterfaceModel, InterfaceRef, TypeExpr, TypeModel,
};

verus! {

/// The views of a list of texts, in order.
pub open spec fn texts(list: Seq<String>) -> Seq<Seq<char>> {
    Seq::new(list.len(), |i: int| list[i]@)
}

/// Model of a [`ReceiverShape`].
pub enum ReceiverShapeModel {
    Value { mutable: bool },
    Reference { lifetime: Option<Seq<char>>, mutable: bool },
}

/// How a method takes the implementing value.
#[derive(Clone, Debug, PartialEq, Eq)]
pub enum ReceiverShape {
    /// `self`, or `mut self` where `mutable` holds.
    Value { mutable: bool },
    /// `&self`, or `&mut self` where `mutable` holds, with the lifetime that
    /// the reference names, if any.
    Reference { lifetime: Option<String>, mutable: bool },
}

impl View for ReceiverShape {
    type V = ReceiverShapeModel;

    open spec fn view(&self) -> ReceiverShapeModel {
        match self {
            ReceiverShape::Value { mutable } => ReceiverShapeModel::Value { mutable: *mutable },
            ReceiverShape::Reference { lifetime, mutable } => ReceiverShapeModel::Reference {
                lifetime: text_opt(*lifetime),
                mutable: *mutable,
            },
        }
    }
}

/// Model of a [`Receiver`].
pub struct ReceiverModel {
    pub attrs: Seq<char>,
    pub shape: ReceiverShapeModel,
}

/// The receiver of a method: its first input, where that is `self`.
#[derive(Clone, Debug, PartialEq, Eq)]
pub struct Receiver {
    /// The attributes on the receiver, as written.
    pub attrs: String,
    pub shape: ReceiverShape,
}

impl View for Receiver {
    type V = ReceiverModel;

    open spec fn view(&self) -> ReceiverModel {
        ReceiverModel { attrs: self.attrs@, shape: self.shape@ }
    }
}

/// The view of an optional receiver.
pub open spec fn receiver_opt(receiver: Option<Receiver>) -> Option<ReceiverModel> {
    match receiver {
        Some(r) => Some(r@),
        None => None,
    }
}

/// Model of a [`Pattern`].
pub enum PatternModel {
    Ident { by_ref: bool, mutable: bool, name: Seq<char>, subpattern: Option<Seq<char>> },
    Other(Seq<char>),
}

/// The pattern that binds an input.
#[derive(Clone, Debug, PartialEq, Eq)]
pub enum Pattern {
    /// A name, possibly with `ref`, `mut` and a subpattern after `@`.
    Ident { by_ref: bool, mutable: bool, name: String, subpattern: Option<String> },
    /// Any other pattern (a wildcard, a tuple, a struct), as written.
    Other(String),
}

impl View for Pattern {
    type V = PatternModel;

    open spec fn view(&self) -> PatternModel {
        match self {
            Pattern::Ident { by_ref, mutable, name, subpattern } => PatternModel::Ident {
                by_ref: *by_ref,
                mutable: *mutable,
                name: name@,
                subpattern: text_opt(*subpattern),
            },
            Pattern::Other(text) => PatternModel::Other(text@),
        }
    }
}

/// Model of a [`TypedArg`].
pub struct TypedArgModel {
    pub attrs: Seq<char>,
    pub pattern: PatternModel,
    pub ty: TypeModel,
}

/// An input of a method other than its receiver: `pattern: ty`.
#[derive(Clone, Debug, PartialEq, Eq)]
pub struct TypedArg {
    /// The attributes on the input, as written.
    pub attrs: String,
    pub pattern: Pattern,
    pub ty: TypeExpr,
}

impl View for TypedArg {
    type V = TypedArgModel;

    open spec fn view(&self) -> TypedArgModel {
        TypedArgModel { attrs: self.attrs@, pattern: self.pattern@, ty: self.ty@ }
    }
}

/// The models of a list of inputs, in order.
pub open spec fn params_model(params: Seq<TypedArg>) -> Seq<TypedArgModel> {
    Seq::new(params.len(), |i: int| params[i]@)
}

/// Model of a [`MethodBody`].
pub enum MethodBodyModel {
    Block(Seq<char>),
    Delegation {
        implementor: TypeModel,
        interface: InterfaceModel,
        method: Seq<char>,
        argument: Seq<char>,
    },
}

/// The body of a method.
#[derive(Clone, Debug, PartialEq, Eq)]
pub enum MethodBody {
    /// A hand-written block, as written, braces included.
    Block(String),
    /// The single call `<implementor as interface>::method(argument, self)`:
    /// the method of that name in the implementation of `interface` for
    /// `implementor`, given the other operand first and the receiver second.
    Delegation { implementor: TypeExpr, interface: InterfaceRef, method: String, argument: String },
}

impl View for MethodBody {
    type V = MethodBodyModel;

    open spec fn view(&self) -> MethodBodyModel {
        match self {
            MethodBody::Block(text) => MethodBodyModel::Block(text@),
            MethodBody::Delegation {
                implementor,
                interface,
                method,
                argument,
            } => MethodBodyModel::Delegation {
                implementor: implementor@,
                interface: interface@,
                method: method@,
                argument: argument@,
            },
        }
    }
}

/// Model of a [`MethodItem`].
pub struct MethodModel {
    pub attrs: Seq<Seq<char>>,
    pub qualifiers: Seq<char>,
    pub name: Seq<char>,
    pub generics: Seq<char>,
    pub receiver: Option<ReceiverModel>,
    pub params: Seq<TypedArgModel>,
    pub variadic: bool,
    pub output: Seq<char>,
    pub where_clause: Seq<char>,
    pub body: MethodBodyModel,
}

/// A method of an implementation record.
#[derive(Clone, Debug, PartialEq, Eq)]
pub struct MethodItem {
    /// The attributes on the method, one text each, in order.
    pub attrs: Vec<String>,
    /// What stands between the attributes and `fn`, as written.
    pub qualifiers: String,
    pub name: String,
    /// The generic parameters with their brackets, as written, or nothing.
    pub generics: String,
    /// The receiver, where the first input is one.
    pub receiver: Option<Receiver>,
    /// The inputs after the receiver, in order.
    pub params: Vec<TypedArg>,
    /// Whether the inputs end in `...`.
    pub variadic: bool,
    /// The arrow and the return type, as written, or nothing.
    pub output: String,
    /// The `where` clause, as written, or nothing.
    pub where_clause: String,
    pub body: MethodBody,
}

impl View for MethodItem {
    type V = MethodModel;

    open spec fn view(&self) -> MethodModel {
        MethodModel {
            attrs: texts(self.attrs@),
            qualifiers: self.qualifiers@,
            name: self.name@,
            generics: self.generics@,
            receiver: receiver_opt(self.receiver),
            params: params_model(self.params@),
            variadic: self.variadic,
            output: self.output@,
            where_clause: self.where_clause@,
            body: self.body@,
        }
    }
}

impl MethodModel {
    /// The number of inputs, the receiver counted.
    pub open spec fn arity(self) -> nat {
        if self.receiver is Some {
            self.params.len() + 1
        } else {
            self.params.len()
        }
    }
}

/// Model of an [`OutputBinding`].
pub enum OutputBindingModel {
    Type(TypeModel),
    Projection { implementor: TypeModel, interface: InterfaceModel, name: Seq<char> },
}

/// What an output type is bound to.
#[derive(Clone, Debug, PartialEq, Eq)]
pub enum OutputBinding {
    /// A type chosen by hand.
    Type(TypeExpr),
    /// The projection `<implementor as interface>::name`: the output type of
    /// that name in the implementation of `interface` for `implementor`.
    Projection { implementor: TypeExpr, interface: InterfaceRef, name: String },
}

impl View for OutputBinding {
    type V = OutputBindingModel;

    open spec fn view(&self) -> OutputBindingModel {
        match self {
            OutputBinding::Type(ty) => OutputBindingModel::Type(ty@),
            OutputBinding::Projection { implementor, interface, name } => {
                OutputBindingModel::Projection {
                    implementor: implementor@,
                    interface: interface@,
                    name: name@,
                }
            },
        }
    }
}

/// Model of an [`OutputTypeItem`].
pub struct OutputTypeModel {
    pub attrs: Seq<char>,
    pub qualifiers: Seq<char>,
    pub name: Seq<char>,
    pub generics: Seq<char>,
    pub where_clause: Seq<char>,
    pub binding: OutputBindingModel,
}

/// An output type of an implementation record: `type name = binding;`.
#[derive(Clone, Debug, PartialEq, Eq)]
pub struct OutputTypeItem {
    /// The attributes on the item, as written.
    pub attrs: String,
    /// What stands between the attributes and `type`, as written.
    pub qualifiers: String,
    pub name: String,
    /// The generic parameters with their brackets, as written, or nothing.
    pub generics: String,
    /// The `where` clause, as written, or nothing.
    pub where_clause: String,
    pub binding: OutputBinding,
}

impl View for OutputTypeItem {
    type V = OutputTypeModel;

    open spec fn view(&self) -> OutputTypeModel {
        OutputTypeModel {
            attrs: self.attrs@,
            qualifiers: self.qualifiers@,
            name: self.name@,
            generics: self.generics@,
            where_clause: self.where_clause@,
            binding: self.binding@,
        }
    }
}

/// Model of a [`Member`].
pub enum MemberModel {
    Method(MethodModel),
    OutputType(OutputTypeModel),
    Other(Seq<char>),
}

/// A member of an implementation record.
#[derive(Clone, Debug, PartialEq, Eq)]
pub enum Member {
    Method(MethodItem),
    OutputType(OutputTypeItem),
    /// A member of any other kind (a constant, a macro call), as written.
    Other(String),
}

impl View for Member {
    type V = MemberModel;

    open spec fn view(&self) -> MemberModel {
        match self {
            Member::Method(method) => MemberModel::Method(method@),
            Member::OutputType(item) => MemberModel::OutputType(item@),
            Member::Other(text) => MemberModel::Other(text@),
        }
    }
}

/// The models of a list of members, in order.
pub open spec fn members_model(items: Seq<Member>) -> Seq<MemberModel> {
    Seq::new(items.len(), |i: int| items[i]@)
}

/// The view of an optional interface reference.
pub open spec fn interface_opt(interface: Option<InterfaceRef>) -> Option<InterfaceModel> {
    match interface {
        Some(i) => Some(i@),
        None => None,
    }
}

/// Model of an [`ImplRecord`].
pub struct RecordModel {
    pub attrs: Seq<char>,
    pub qualifiers: Seq<char>,
    pub generics: Seq<char>,
    pub interface: Option<InterfaceModel>,
    pub self_ty: TypeModel,
    pub where_clause: Seq<char>,
    pub inner_attrs: Seq<char>,
    pub items: Seq<MemberModel>,
}

/// One implementation block: `impl generics interface for self_ty { items }`,
/// or an inherent one where `interface` is `None`.
#[derive(Clone, Debug, PartialEq, Eq)]
pub struct ImplRecord {
    /// The attributes on the block, as written.
    pub attrs: String,
    /// What stands between the attributes and `impl`, as written.
    pub qualifiers: String,
    /// The generic parameters with their brackets, as written, or nothing.
    pub generics: String,
    /// The interface that is implemented, if any.
    pub interface: Option<InterfaceRef>,
    /// The implementing type.
    pub self_ty: TypeExpr,
    /// The `where` clause, as written, or nothing.
    pub where_clause: String,
    /// The attributes inside the braces, as written.
    pub inner_attrs: String,
    /// The members, in order.
    pub items: Vec<Member>,
}

impl View for ImplRecord {
    type V = RecordModel;

    open spec fn view(&self) -> RecordModel {
        RecordModel {
            attrs: self.attrs@,
            qualifiers: self.qualifiers@,
            generics: self.generics@,
            interface: interface_opt(self.interface),
            self_ty: self.self_ty@,
            where_clause: self.where_clause@,
            inner_attrs: self.inner_attrs@,
            items: members_model(self.items@),
        }
    }
}

impl Receiver {
    /// The receiver `self` or `mut self`, without attributes.
    pub fn value(mutable: bool) -> (receiver: Receiver)
        ensures
            receiver@ == (ReceiverModel {
                attrs: Seq::empty(),
                shape: ReceiverShapeModel::Value { mutable },
            }),
    {
        Receiver { attrs: String::new(), shape: ReceiverShape::Value { mutable } }
    }

    /// The receiver `&'lifetime mut self`, with the lifetime and `mut` as
    /// given, without attributes.
    pub fn reference(lifetime: Option<&str>, mutable: bool) -> (receiver: Receiver)
        ensures
            receiver@ == (ReceiverModel {
                attrs: Seq::empty(),
                shape: ReceiverShapeModel::Reference { lifetime: str_opt(lifetime), mutable },
            }),
    {
        Receiver {
            attrs: String::new(),
            shape: ReceiverShape::Reference { lifetime: own_text_opt(lifetime), mutable },
        }
    }
}

impl TypedArg {
    /// The input `name: ty`, or `mut name: ty` where `mutable` holds, without
    /// attributes.
    pub fn named(name: &str, mutable: bool, ty: TypeExpr) -> (arg: TypedArg)
        ensures
            arg@ == (TypedArgModel {
                attrs: Seq::empty(),
                pattern: PatternModel::Ident {
                    by_ref: false,
                    mutable,
                    name: name@,
                    subpattern: None,
                },
                ty: ty@,
            }),
    {
        TypedArg {
            attrs: String::new(),
            pattern: Pattern::Ident {
                by_ref: false,
                mutable,
                name: name.to_owned(),
                subpattern: None,
            },
            ty,
        }
    }
}

impl MethodItem {
    /// The hand-written method `fn name(receiver, params) output body`, with
    /// the receiver where one is given, and nothing else: no attributes,
    /// qualifiers, generic parameters or `where` clause, and not variadic.
    pub fn new(
        name: &str,
        receiver: Option<Receiver>,
        params: Vec<TypedArg>,
        output: &str,
        body: &str,
    ) -> (method: MethodItem)
        ensures
            method@ == (MethodModel {
                attrs: Seq::empty(),
                qualifiers: Seq::empty(),
                name: name@,
                generics: Seq::empty(),
                receiver: receiver_opt(receiver),
                params: params_model(params@),
                variadic: false,
                output: output@,
                where_clause: Seq::empty(),
                body: MethodBodyModel::Block(body@),
            }),
    {
        let method = MethodItem {
            attrs: Vec::new(),
            qualifiers: String::new(),
            name: name.to_owned(),
            generics: String::new(),
            receiver,
            params,
            variadic: false,
            output: output.to_owned(),
            where_clause: String::new(),
            body: MethodBody::Block(body.to_owned()),
        };
        assert(method@.attrs =~= Seq::empty());
        method
    }
}

impl OutputTypeItem {
    /// The output type `type name = ty;`, and nothing else.
    pub fn new(name: &str, ty: TypeExpr) -> (item: OutputTypeItem)
        ensures
            item@ == (OutputTypeModel {
                attrs: Seq::empty(),
                qualifiers: Seq::empty(),
                name: name@,
                generics: Seq::empty(),
                where_clause: Seq::empty(),
                binding: OutputBindingModel::Type(ty@),
            }),
    {
        OutputTypeItem {
            attrs: String::new(),
            qualifiers: String::new(),
            name: name.to_owned(),
            generics: String::new(),
            where_clause: String::new(),
            binding: OutputBinding::Type(ty),
        }
    }
}

impl ImplRecord {
    /// The record `impl generics interface for self_ty where_clause { items }`,
    /// or the inherent one where no interface is given, without attributes or
    /// qualifiers.
    pub fn new(
        generics: &str,
        interface: Option<InterfaceRef>,
        self_ty: TypeExpr,
        where_clause: &str,
        items: Vec<Member>,
    ) -> (record: ImplRecord)
        ensures
            record@ == (RecordModel {
                attrs: Seq::empty(),
                qualifiers: Seq::empty(),
                generics: generics@,
                interface: interface_opt(interface),
                self_ty: self_ty@,
                where_clause: where_clause@,
                inner_attrs: Seq::empty(),
                items: members_model(items@),
            }),
    {
        ImplRecord {
            attrs: String::new(),
            qualifiers: String::new(),
            generics: generics.to_owned(),
            interface,
            self_ty,
            where_clause: where_clause.to_owned(),
            inner_attrs: String::new(),
            items,
        }
    }
}

} // verus!
