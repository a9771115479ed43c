//! The validator: which records qualify for mirroring, and the first rule
//! that a record breaks where it does not.

use vstd::prelude::*;
use crate::error::{ClassifiedError, Location, Violation};
use crate::interface::{
    args_model, text_opt, GenericArg, GenericArgModel, InterfaceModel, InterfaceRef,
    PathArguments, PathArgumentsModel, TypeExpr, TypeModel,
};
use crate::record::{
    members_model, ImplRecord, Member, MemberModel, MethodItem, MethodModel, Pattern,
    PatternModel, ReceiverShape, ReceiverShapeModel, RecordModel, TypedArg, TypedArgModel,
};

verus! {

/// The position of the first type among the first `n` arguments.
pub open spec fn first_type_within(args: Seq<GenericArgModel>, n: nat) -> Option<nat>
    decreases n,
{
    if n == 0 {
        None
    } else {
        match first_type_within(args, (n - 1) as nat) {
            Some(i) => Some(i),
            None => if args[n - 1] is Type {
                Some((n - 1) as nat)
            } else {
                None
            },
        }
    }
}

/// The symmetry slot of an argument list: the position of its first type
/// argument, the one that names the other operand's type.
pub open spec fn symmetry_slot(args: Seq<GenericArgModel>) -> Option<nat> {
    first_type_within(args, args.len())
}

/// Among the first `n` arguments, the first type is at `i` exactly if `i` is
/// below `n`, holds a type and no earlier argument does; there is none exactly
/// if none of them is a type.
pub proof fn lemma_first_type_within(args: Seq<GenericArgModel>, n: nat)
    ensures
        match first_type_within(args, n) {
            Some(i) => i < n && args[i as int] is Type && forall|j: int|
                0 <= j < i ==> !(#[trigger] args[j] is Type),
            None => forall|j: int| 0 <= j < n ==> !(#[trigger] args[j] is Type),
        },
    decreases n,
{
    if n > 0 {
        lemma_first_type_within(args, (n - 1) as nat);
    }
}

/// Once a type is found among the first `n` arguments, looking further
/// changes nothing.
pub proof fn lemma_first_type_stable(args: Seq<GenericArgModel>, n: nat, m: nat)
    requires
        n <= m,
        first_type_within(args, n) is Some,
    ensures
        first_type_within(args, m) == first_type_within(args, n),
    decreases m,
{
    if n < m {
        lemma_first_type_stable(args, n, (m - 1) as nat);
    }
}

/// Finds the symmetry slot of an argument list by one scan from the front,
/// which ends at the first type.
pub fn find_symmetry_slot(args: &Vec<GenericArg>) -> (slot: Option<usize>)
    ensures
        match slot {
            Some(i) => symmetry_slot(args_model(args@)) == Some(i as nat),
            None => symmetry_slot(args_model(args@)) is None,
        },
{
    let ghost model = args_model(args@);
    let mut i: usize = 0;
    while i < args.len()
        invariant
            i <= args.len(),
            model == args_model(args@),
            first_type_within(model, i as nat) is None,
        decreases args.len() - i,
    {
        match &args[i] {
            GenericArg::Type(_) => {
                proof {
                    assert(first_type_within(model, (i + 1) as nat) == Some(i as nat));
                    lemma_first_type_stable(model, (i + 1) as nat, model.len());
                }
                return Some(i);
            },
            _ => {
                assert(!(model[i as int] is Type));
            },
        }
        i += 1;
    }
    None
}

/// An error for the rule `violation`, reported at `location`.
pub open spec fn broken(violation: Violation, location: Location) -> Option<ClassifiedError> {
    Some(ClassifiedError { violation, location })
}

/// Whether the pattern binds as `mut`. Only a name can; a pattern that is no
/// name does not.
pub open spec fn binds_mut(pattern: PatternModel) -> bool {
    pattern matches PatternModel::Ident { mutable, .. } && mutable
}

/// The first rule that the receiver and the other input of the method at
/// position `item` break between them, if any. The rules, in the order in
/// which they are tried: both are references or neither is; both have the
/// same `mut`, which a reference has in its type and a value in the pattern
/// that binds it; two references name the same lifetime; and the other input
/// is bound to a name.
pub open spec fn operand_violation(
    receiver: ReceiverShapeModel,
    other: TypedArgModel,
    item: usize,
) -> Option<ClassifiedError> {
    match receiver {
        ReceiverShapeModel::Reference { lifetime, mutable } => match other.ty {
            TypeModel::Reference { lifetime: other_lifetime, mutable: other_mutable, .. } => {
                if mutable != other_mutable {
                    broken(Violation::Mutability, Location::OtherInput { item })
                } else if lifetime != other_lifetime {
                    broken(Violation::Lifetime, Location::OtherInput { item })
                } else if !(other.pattern is Ident) {
                    broken(Violation::ExpectedIdent, Location::OtherPattern { item })
                } else {
                    None
                }
            },
            TypeModel::Verbatim(_) => broken(
                Violation::ExpectedReference,
                Location::OtherInput { item },
            ),
        },
        ReceiverShapeModel::Value { mutable } => {
            if other.ty is Reference {
                broken(Violation::UnexpectedReference, Location::OtherInput { item })
            } else if mutable != binds_mut(other.pattern) {
                broken(Violation::Mutability, Location::OtherPattern { item })
            } else if !(other.pattern is Ident) {
                broken(Violation::ExpectedIdent, Location::OtherPattern { item })
            } else {
                None
            }
        },
    }
}

/// Whether the receiver and the other input are taken alike: both are
/// references with the same `mut` and the same lifetime, or neither is a
/// reference and both are bound with the same `mut`.
pub open spec fn shapes_agree(receiver: ReceiverShapeModel, other: TypedArgModel) -> bool {
    match receiver {
        ReceiverShapeModel::Reference { lifetime, mutable } => {
            &&& other.ty matches TypeModel::Reference {
                lifetime: other_lifetime,
                mutable: other_mutable,
                ..
            }
            &&& other_mutable == mutable
            &&& other_lifetime == lifetime
        },
        ReceiverShapeModel::Value { mutable } => {
            &&& other.ty is Verbatim
            &&& binds_mut(other.pattern) == mutable
        },
    }
}

/// The first rule that the method at position `item` breaks, if any. The
/// rules, in the order in which they are tried: the method is not variadic;
/// it takes exactly two inputs; the first of them is a receiver; and the two
/// pass [`operand_violation`].
pub open spec fn method_violation(method: MethodModel, item: usize) -> Option<ClassifiedError> {
    if method.variadic {
        broken(Violation::Variadic, Location::Variadic { item })
    } else if method.arity() != 2 {
        broken(Violation::Arity, Location::Inputs { item })
    } else {
        match method.receiver {
            None => broken(Violation::MissingReceiver, Location::FirstInput { item }),
            Some(receiver) => operand_violation(receiver.shape, method.params[0], item),
        }
    }
}

/// The first rule that the member at position `item` breaks, if any. Only a
/// method can break one.
pub open spec fn member_violation(member: MemberModel, item: usize) -> Option<ClassifiedError> {
    match member {
        MemberModel::Method(method) => method_violation(method, item),
        _ => None,
    }
}

/// The first error among the first `n` members, in their order.
pub open spec fn first_violation_within(items: Seq<MemberModel>, n: nat) -> Option<
    ClassifiedError,
>
    decreases n,
{
    if n == 0 {
        None
    } else {
        match first_violation_within(items, (n - 1) as nat) {
            Some(error) => Some(error),
            None => member_violation(items[n - 1], (n - 1) as usize),
        }
    }
}

/// The first error among all the members.
pub open spec fn members_violation(items: Seq<MemberModel>) -> Option<ClassifiedError> {
    first_violation_within(items, items.len())
}

/// The first rule that a record breaks, if any. The rules, in the order in
/// which they are tried: the record implements an interface; the interface
/// is not negated; it has a bracketed argument list; one of the arguments is
/// a type; and every method, in the members' order, passes
/// [`method_violation`].
pub open spec fn record_violation(record: RecordModel) -> Option<ClassifiedError> {
    match record.interface {
        None => broken(Violation::NotAnInterface, Location::CallSite),
        Some(interface) => {
            if interface.negated {
                broken(Violation::NegatedInterface, Location::Negation)
            } else {
                match interface.arguments {
                    PathArgumentsModel::AngleBracketed(args) => {
                        if symmetry_slot(args) is None {
                            broken(Violation::NoTypeArgument, Location::InterfaceArguments)
                        } else {
                            members_violation(record.items)
                        }
                    },
                    _ => broken(Violation::NotGeneric, Location::InterfacePath),
                }
            }
        },
    }
}

/// Among the first `n` members there is no error exactly if none of them
/// breaks a rule; the first error is that of the first member that breaks
/// one.
pub proof fn lemma_first_violation_within(items: Seq<MemberModel>, n: nat)
    ensures
        match first_violation_within(items, n) {
            Some(error) => exists|i: int|
                0 <= i < n && #[trigger] member_violation(items[i], i as usize) == Some(error)
                    && forall|j: int|
                    0 <= j < i ==> #[trigger] member_violation(items[j], j as usize) is None,
            None => forall|j: int|
                0 <= j < n ==> #[trigger] member_violation(items[j], j as usize) is None,
        },
    decreases n,
{
    if n > 0 {
        lemma_first_violation_within(items, (n - 1) as nat);
        if first_violation_within(items, (n - 1) as nat) is None {
            if member_violation(items[n - 1], (n - 1) as usize) is Some {
                assert(member_violation(items[n - 1], (n - 1) as usize) == Some(
                    first_violation_within(items, n)->0,
                ));
            }
        }
    }
}

/// Once an error is found among the first `n` members, looking further
/// changes nothing.
pub proof fn lemma_first_violation_stable(items: Seq<MemberModel>, n: nat, m: nat)
    requires
        n <= m,
        first_violation_within(items, n) is Some,
    ensures
        first_violation_within(items, m) == first_violation_within(items, n),
    decreases m,
{
    if n < m {
        lemma_first_violation_stable(items, n, (m - 1) as nat);
    }
}

/// Whether two optional texts are the same text, or both absent.
pub fn same_text_opt(a: &Option<String>, b: &Option<String>) -> (same: bool)
    ensures
        same == (text_opt(*a) == text_opt(*b)),
{
    match (a, b) {
        (Some(x), Some(y)) => *x == *y,
        (None, None) => true,
        _ => false,
    }
}

/// Holds the receiver and the other input of the method at position `item`
/// against each other.
pub fn check_operands(receiver: &ReceiverShape, other: &TypedArg, item: usize) -> (error: Option<
    ClassifiedError,
>)
    ensures
        error == operand_violation(receiver@, other@, item),
{
    match receiver {
        ReceiverShape::Reference { lifetime, mutable } => match &other.ty {
            TypeExpr::Reference { lifetime: other_lifetime, mutable: other_mutable, elem: _ } => {
                if *mutable != *other_mutable {
                    Some(
                        ClassifiedError {
                            violation: Violation::Mutability,
                            location: Location::OtherInput { item },
                        },
                    )
                } else if !same_text_opt(lifetime, other_lifetime) {
                    Some(
                        ClassifiedError {
                            violation: Violation::Lifetime,
                            location: Location::OtherInput { item },
                        },
                    )
                } else {
                    match &other.pattern {
                        Pattern::Ident { .. } => None,
                        Pattern::Other(_) => Some(
                            ClassifiedError {
                                violation: Violation::ExpectedIdent,
                                location: Location::OtherPattern { item },
                            },
                        ),
                    }
                }
            },
            TypeExpr::Verbatim(_) => Some(
                ClassifiedError {
                    violation: Violation::ExpectedReference,
                    location: Location::OtherInput { item },
                },
            ),
        },
        ReceiverShape::Value { mutable } => match &other.ty {
            TypeExpr::Reference { .. } => Some(
                ClassifiedError {
                    violation: Violation::UnexpectedReference,
                    location: Location::OtherInput { item },
                },
            ),
            TypeExpr::Verbatim(_) => {
                let (named, other_mutable) = match &other.pattern {
                    Pattern::Ident { by_ref: _, mutable: other_mutable, name: _, subpattern: _ } => (
                        true,
                        *other_mutable,
                    ),
                    Pattern::Other(_) => (false, false),
                };
                if *mutable != other_mutable {
                    Some(
                        ClassifiedError {
                            violation: Violation::Mutability,
                            location: Location::OtherPattern { item },
                        },
                    )
                } else if !named {
                    Some(
                        ClassifiedError {
                            violation: Violation::ExpectedIdent,
                            location: Location::OtherPattern { item },
                        },
                    )
                } else {
                    None
                }
            },
        },
    }
}

/// Holds the method at position `item` to the rules for a method.
pub fn check_method(method: &MethodItem, item: usize) -> (error: Option<ClassifiedError>)
    ensures
        error == method_violation(method@, item),
{
    if method.variadic {
        return Some(
            ClassifiedError {
                violation: Violation::Variadic,
                location: Location::Variadic { item },
            },
        );
    }
    match &method.receiver {
        Some(receiver) => {
            if method.params.len() != 1 {
                Some(
                    ClassifiedError {
                        violation: Violation::Arity,
                        location: Location::Inputs { item },
                    },
                )
            } else {
                check_operands(&receiver.shape, &method.params[0], item)
            }
        },
        None => {
            if method.params.len() != 2 {
                Some(
                    ClassifiedError {
                        violation: Violation::Arity,
                        location: Location::Inputs { item },
                    },
                )
            } else {
                Some(
                    ClassifiedError {
                        violation: Violation::MissingReceiver,
                        location: Location::FirstInput { item },
                    },
                )
            }
        },
    }
}

/// Holds every method among the members to the rules, in the members' order,
/// and stops at the first error.
pub fn check_members(items: &Vec<Member>) -> (error: Option<ClassifiedError>)
    ensures
        error == members_violation(members_model(items@)),
{
    let ghost model = members_model(items@);
    let mut i: usize = 0;
    while i < items.len()
        invariant
            i <= items.len(),
            model == members_model(items@),
            first_violation_within(model, i as nat) is None,
        decreases items.len() - i,
    {
        match &items[i] {
            Member::Method(method) => {
                let error = check_method(method, i);
                if error.is_some() {
                    proof {
                        assert(first_violation_within(model, (i + 1) as nat) == error);
                        lemma_first_violation_stable(model, (i + 1) as nat, model.len());
                    }
                    return error;
                }
            },
            _ => {
                assert(member_violation(model[i as int], i) is None);
            },
        }
        i += 1;
    }
    None
}

/// Model of an [`ExtractedShape`].
pub struct ShapeModel {
    pub attrs: Seq<char>,
    pub qualifiers: Seq<char>,
    pub generics: Seq<char>,
    pub path: Seq<char>,
    pub arguments: Seq<GenericArgModel>,
    pub slot: nat,
    pub implementor: TypeModel,
    pub where_clause: Seq<char>,
    pub inner_attrs: Seq<char>,
    pub items: Seq<MemberModel>,
}

/// A record taken apart into the parts that the transformation works on: the
/// interface's path and its arguments, the position of the symmetry slot
/// among them, the implementing type, and the members.
#[derive(Clone, Debug, PartialEq, Eq)]
pub struct ExtractedShape {
    pub attrs: String,
    pub qualifiers: String,
    pub generics: String,
    /// The path of the interface, up to and including its name.
    pub path: String,
    /// The arguments of the interface, in order.
    pub arguments: Vec<GenericArg>,
    /// The position of the symmetry slot among the arguments.
    pub slot: usize,
    /// The implementing type.
    pub implementor: TypeExpr,
    pub where_clause: String,
    pub inner_attrs: String,
    pub items: Vec<Member>,
}

impl View for ExtractedShape {
    type V = ShapeModel;

    open spec fn view(&self) -> ShapeModel {
        ShapeModel {
            attrs: self.attrs@,
            qualifiers: self.qualifiers@,
            generics: self.generics@,
            path: self.path@,
            arguments: args_model(self.arguments@),
            slot: self.slot as nat,
            implementor: self.implementor@,
            where_clause: self.where_clause@,
            inner_attrs: self.inner_attrs@,
            items: members_model(self.items@),
        }
    }
}

impl ShapeModel {
    /// The interface that the shape implements.
    pub open spec fn interface(self) -> InterfaceModel {
        InterfaceModel {
            negated: false,
            path: self.path,
            arguments: PathArgumentsModel::AngleBracketed(self.arguments),
        }
    }

    /// The record that the shape was taken from.
    pub open spec fn record(self) -> RecordModel {
        RecordModel {
            attrs: self.attrs,
            qualifiers: self.qualifiers,
            generics: self.generics,
            interface: Some(self.interface()),
            self_ty: self.implementor,
            where_clause: self.where_clause,
            inner_attrs: self.inner_attrs,
            items: self.items,
        }
    }

    /// The type in the symmetry slot: the other operand's type.
    pub open spec fn other_type(self) -> TypeModel {
        self.arguments[self.slot as int]->Type_0
    }

    /// Whether `slot` is the symmetry slot of the arguments and no member
    /// breaks a rule: what holds of the shape of every record that passes
    /// validation.
    pub open spec fn well_formed(self) -> bool {
        &&& symmetry_slot(self.arguments) == Some(self.slot)
        &&& members_violation(self.items) is None
    }
}

/// The shape of a record that breaks no rule.
pub open spec fn extracted(record: RecordModel) -> ShapeModel
    recommends
        record_violation(record) is None,
{
    let interface = record.interface->0;
    let arguments = interface.arguments->AngleBracketed_0;
    ShapeModel {
        attrs: record.attrs,
        qualifiers: record.qualifiers,
        generics: record.generics,
        path: interface.path,
        arguments,
        slot: symmetry_slot(arguments)->0,
        implementor: record.self_ty,
        where_clause: record.where_clause,
        inner_attrs: record.inner_attrs,
        items: record.items,
    }
}

/// Validates a record. The rules are tried in the order that
/// [`record_violation`] gives, and the first one that is broken is the error;
/// a record that breaks none is returned taken apart.
pub fn validate(record: ImplRecord) -> (result: Result<ExtractedShape, ClassifiedError>)
    ensures
        match result {
            Ok(shape) => {
                &&& record_violation(record@) is None
                &&& shape@ == extracted(record@)
                &&& shape@.well_formed()
                &&& shape@.record() == record@
            },
            Err(error) => record_violation(record@) == Some(error),
        },
{
    let ImplRecord {
        attrs,
        qualifiers,
        generics,
        interface,
        self_ty,
        where_clause,
        inner_attrs,
        items,
    } = record;
    let interface = match interface {
        Some(interface) => interface,
        None => {
            return Err(
                ClassifiedError {
                    violation: Violation::NotAnInterface,
                    location: Location::CallSite,
                },
            );
        },
    };
    let InterfaceRef { negated, path, arguments } = interface;
    if negated {
        return Err(
            ClassifiedError {
                violation: Violation::NegatedInterface,
                location: Location::Negation,
            },
        );
    }
    let arguments = match arguments {
        PathArguments::AngleBracketed(arguments) => arguments,
        _ => {
            return Err(
                ClassifiedError {
                    violation: Violation::NotGeneric,
                    location: Location::InterfacePath,
                },
            );
        },
    };
    let slot = match find_symmetry_slot(&arguments) {
        Some(slot) => slot,
        None => {
            return Err(
                ClassifiedError {
                    violation: Violation::NoTypeArgument,
                    location: Location::InterfaceArguments,
                },
            );
        },
    };
    match check_members(&items) {
        Some(error) => Err(error),
        None => Ok(
            ExtractedShape {
                attrs,
                qualifiers,
                generics,
                path,
                arguments,
                slot,
                implementor: self_ty,
                where_clause,
                inner_attrs,
                items,
            },
        ),
    }
}

} // verus!
