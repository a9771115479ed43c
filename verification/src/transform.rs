//! The transformer: from the shape of a valid record to its mirror.

use vstd::prelude::*;
use crate::error::ClassifiedError;
use crate::interface::{
    clone_args, GenericArg, GenericArgModel, InterfaceModel, InterfaceRef, PathArguments,
    PathArgumentsModel, TypeExpr, TypeModel,
};
use crate::record::{
    members_model, ImplRecord, Member, MemberModel, MethodBody, MethodBodyModel, MethodItem,
    MethodModel, OutputBinding, OutputBindingModel, OutputTypeItem, OutputTypeModel, Pattern,
    RecordModel, TypedArg, TypedArgModel,
};
use crate::validate::{
    extracted, lemma_first_type_within, lemma_first_violation_within, member_violation,
    method_violation, record_violation, validate, ExtractedShape, ShapeModel,
};

verus! {

/// The marker that silences the warning about a `mut` that a delegating body
/// leaves unused.
pub open spec fn allow_unused_mut_marker() -> Seq<char> {
    "#[allow(unused_mut)]"@
}

/// The marker that asks for a delegating method to be inlined.
pub open spec fn inline_marker() -> Seq<char> {
    "#[inline]"@
}

/// The type of the other input in the mirror: the implementing type, behind
/// the same kind of reference as before where the input is one.
pub open spec fn mirrored_type(ty: TypeModel, implementor: TypeModel) -> TypeModel {
    match ty {
        TypeModel::Reference { lifetime, mutable, .. } => TypeModel::Reference {
            lifetime,
            mutable,
            elem: Box::new(implementor),
        },
        TypeModel::Verbatim(_) => implementor,
    }
}

impl MethodModel {
    /// Whether the method breaks no rule.
    pub open spec fn eligible(self) -> bool {
        method_violation(self, 0) is None
    }

    /// The other input of an eligible method.
    pub open spec fn other(self) -> TypedArgModel {
        self.params[0]
    }
}

/// The mirror of an eligible method of the implementation of `interface` for
/// `implementor`. Its other input has the implementing type; its body is the
/// call of the same method of that implementation, with the other input
/// first and the receiver second; the two markers follow its attributes.
/// Nothing else changes.
pub open spec fn mirrored_method(
    method: MethodModel,
    implementor: TypeModel,
    interface: InterfaceModel,
) -> MethodModel
    recommends
        method.eligible(),
{
    MethodModel {
        attrs: method.attrs.push(allow_unused_mut_marker()).push(inline_marker()),
        params: seq![
            TypedArgModel {
                attrs: method.other().attrs,
                pattern: method.other().pattern,
                ty: mirrored_type(method.other().ty, implementor),
            },
        ],
        body: MethodBodyModel::Delegation {
            implementor,
            interface,
            method: method.name,
            argument: method.other().pattern->name,
        },
        ..method
    }
}

/// The mirror of an output type of the implementation of `interface` for
/// `implementor`: it is bound to the output type of the same name of that
/// implementation.
pub open spec fn mirrored_output(
    item: OutputTypeModel,
    implementor: TypeModel,
    interface: InterfaceModel,
) -> OutputTypeModel {
    OutputTypeModel {
        binding: OutputBindingModel::Projection { implementor, interface, name: item.name },
        ..item
    }
}

/// The mirror of a member. A member that is neither a method nor an output
/// type is its own mirror.
pub open spec fn mirrored_member(
    member: MemberModel,
    implementor: TypeModel,
    interface: InterfaceModel,
) -> MemberModel {
    match member {
        MemberModel::Method(method) => MemberModel::Method(
            mirrored_method(method, implementor, interface),
        ),
        MemberModel::OutputType(item) => MemberModel::OutputType(
            mirrored_output(item, implementor, interface),
        ),
        MemberModel::Other(text) => MemberModel::Other(text),
    }
}

/// The mirror of the record with a well-formed shape: the same interface,
/// with the implementing type in the symmetry slot, implemented for the type
/// that stood in the slot; every member mirrored against the record it came
/// from; all else as it was.
pub open spec fn mirrored(shape: ShapeModel) -> RecordModel
    recommends
        shape.well_formed(),
{
    RecordModel {
        attrs: shape.attrs,
        qualifiers: shape.qualifiers,
        generics: shape.generics,
        interface: Some(
            InterfaceModel {
                negated: false,
                path: shape.path,
                arguments: PathArgumentsModel::AngleBracketed(
                    shape.arguments.update(
                        shape.slot as int,
                        GenericArgModel::Type(shape.implementor),
                    ),
                ),
            },
        ),
        self_ty: shape.other_type(),
        where_clause: shape.where_clause,
        inner_attrs: shape.inner_attrs,
        items: Seq::new(
            shape.items.len(),
            |i: int| mirrored_member(shape.items[i], shape.implementor, shape.interface()),
        ),
    }
}

/// The type of the other input in the mirror.
pub fn mirror_type(ty: TypeExpr, implementor: &TypeExpr) -> (mirror: TypeExpr)
    ensures
        mirror@ == mirrored_type(ty@, implementor@),
{
    match ty {
        TypeExpr::Reference { lifetime, mutable, elem: _ } => TypeExpr::Reference {
            lifetime,
            mutable,
            elem: Box::new(implementor.clone()),
        },
        TypeExpr::Verbatim(_) => implementor.clone(),
    }
}

/// Mirrors an eligible method of the implementation of `interface` for
/// `implementor`.
pub fn mirror_method(method: MethodItem, implementor: &TypeExpr, interface: &InterfaceRef) -> (mirror:
    MethodItem)
    requires
        method@.eligible(),
    ensures
        mirror@ == mirrored_method(method@, implementor@, interface@),
{
    let ghost before = method@;
    let MethodItem {
        attrs,
        qualifiers,
        name,
        generics,
        receiver,
        params,
        variadic,
        output,
        where_clause,
        body: _,
    } = method;
    let mut attrs = attrs;
    let mut params = params;
    let other = params.remove(0);
    let TypedArg { attrs: other_attrs, pattern, ty } = other;
    let argument = match &pattern {
        Pattern::Ident { by_ref: _, mutable: _, name, subpattern: _ } => name.clone(),
        Pattern::Other(_) => unreached(),
    };
    let body = MethodBody::Delegation {
        implementor: implementor.clone(),
        interface: interface.clone(),
        method: name.clone(),
        argument,
    };
    params.push(TypedArg { attrs: other_attrs, pattern, ty: mirror_type(ty, implementor) });
    attrs.push("#[allow(unused_mut)]".to_owned());
    attrs.push("#[inline]".to_owned());
    let mirror = MethodItem {
        attrs,
        qualifiers,
        name,
        generics,
        receiver,
        params,
        variadic,
        output,
        where_clause,
        body,
    };
    proof {
        let expected = mirrored_method(before, implementor@, interface@);
        assert(mirror@.attrs =~= expected.attrs);
        assert(mirror@.params =~= expected.params);
    }
    mirror
}

/// Mirrors an output type of the implementation of `interface` for
/// `implementor`.
pub fn mirror_output(item: OutputTypeItem, implementor: &TypeExpr, interface: &InterfaceRef) -> (mirror:
    OutputTypeItem)
    ensures
        mirror@ == mirrored_output(item@, implementor@, interface@),
{
    let OutputTypeItem { attrs, qualifiers, name, generics, where_clause, binding: _ } = item;
    let binding = OutputBinding::Projection {
        implementor: implementor.clone(),
        interface: interface.clone(),
        name: name.clone(),
    };
    OutputTypeItem { attrs, qualifiers, name, generics, where_clause, binding }
}

/// Mirrors a member of the implementation of `interface` for `implementor`.
pub fn mirror_member(member: Member, implementor: &TypeExpr, interface: &InterfaceRef) -> (mirror:
    Member)
    requires
        member_violation(member@, 0) is None,
    ensures
        mirror@ == mirrored_member(member@, implementor@, interface@),
{
    match member {
        Member::Method(method) => Member::Method(mirror_method(method, implementor, interface)),
        Member::OutputType(item) => Member::OutputType(mirror_output(item, implementor, interface)),
        Member::Other(text) => Member::Other(text),
    }
}

/// Mirrors the members of the implementation of `interface` for
/// `implementor`, in their order.
pub fn mirror_members(items: Vec<Member>, implementor: &TypeExpr, interface: &InterfaceRef) -> (mirror:
    Vec<Member>)
    requires
        forall|i: int|
            0 <= i < items.len() ==> member_violation(#[trigger] items[i]@, 0) is None,
    ensures
        members_model(mirror@) == Seq::new(
            items.len() as nat,
            |i: int| mirrored_member(items[i]@, implementor@, interface@),
        ),
{
    let ghost before = items@;
    let mut mirror: Vec<Member> = Vec::new();
    for member in iter: items
        invariant
            iter.seq() == before,
            mirror.len() == iter.index(),
            forall|i: int|
                0 <= i < before.len() ==> member_violation(#[trigger] before[i]@, 0) is None,
            forall|i: int|
                0 <= i < mirror.len() ==> #[trigger] mirror[i]@ == mirrored_member(
                    before[i]@,
                    implementor@,
                    interface@,
                ),
    {
        mirror.push(mirror_member(member, implementor, interface));
    }
    assert(members_model(mirror@) =~= Seq::new(
        before.len(),
        |i: int| mirrored_member(before[i]@, implementor@, interface@),
    ));
    mirror
}

/// Builds the mirror of the record with the given shape. The original's
/// interface reference is kept for the members to delegate to; then the
/// implementing type and the type in the symmetry slot change places.
pub fn transform(shape: ExtractedShape) -> (mirror: ImplRecord)
    requires
        shape@.well_formed(),
    ensures
        mirror@ == mirrored(shape@),
{
    let ghost before = shape@;
    let ExtractedShape {
        attrs,
        qualifiers,
        generics,
        path,
        arguments,
        slot,
        implementor,
        where_clause,
        inner_attrs,
        items,
    } = shape;
    let original = InterfaceRef {
        negated: false,
        path: path.clone(),
        arguments: PathArguments::AngleBracketed(clone_args(&arguments)),
    };
    proof {
        lemma_first_violation_within(before.items, before.items.len());
        lemma_first_type_within(before.arguments, before.arguments.len());
        assert forall|i: int| 0 <= i < items.len() implies member_violation(
            #[trigger] items[i]@,
            0,
        ) is None by {
            assert(member_violation(before.items[i], i as usize) is None);
        }
    }
    let items = mirror_members(items, &implementor, &original);
    let mut arguments = arguments;
    arguments.push(GenericArg::Type(implementor));
    let self_ty = match arguments.swap_remove(slot) {
        GenericArg::Type(ty) => ty,
        _ => unreached(),
    };
    let mirror = ImplRecord {
        attrs,
        qualifiers,
        generics,
        interface: Some(
            InterfaceRef { negated: false, path, arguments: PathArguments::AngleBracketed(arguments) },
        ),
        self_ty,
        where_clause,
        inner_attrs,
        items,
    };
    proof {
        let expected = mirrored(before);
        assert(mirror@.items =~= expected.items);
        assert(mirror@.interface->0.arguments->AngleBracketed_0
            =~= expected.interface->0.arguments->AngleBracketed_0);
    }
    mirror
}

/// What mirroring a record gives: the first error where the record breaks a
/// rule, else the mirror of its shape.
pub open spec fn mirror_outcome(record: RecordModel) -> Result<RecordModel, ClassifiedError> {
    match record_violation(record) {
        Some(error) => Err(error),
        None => Ok(mirrored(extracted(record))),
    }
}

/// The model of a result of [`mirror`].
pub open spec fn outcome_model(result: Result<ImplRecord, ClassifiedError>) -> Result<
    RecordModel,
    ClassifiedError,
> {
    match result {
        Ok(mirror) => Ok(mirror@),
        Err(error) => Err(error),
    }
}

/// Validates a record and builds its mirror. A record that breaks a rule
/// gives the first such error and no mirror.
pub fn mirror(record: ImplRecord) -> (result: Result<ImplRecord, ClassifiedError>)
    ensures
        outcome_model(result) == mirror_outcome(record@),
{
    match validate(record) {
        Ok(shape) => Ok(transform(shape)),
        Err(error) => Err(error),
    }
}

} // verus!
