//! What holds of every mirror.
//!
//! The laws speak of what a call returns. The library does not run code; the
//! meaning of the hand-written implementations is a parameter, and the laws
//! hold whatever it is.

use vstd::prelude::*;
use crate::interface::{GenericArgModel, InterfaceModel, TypeModel};
use crate::record::{
    MemberModel, MethodBodyModel, OutputBindingModel, ReceiverShapeModel, RecordModel,
};
use crate::transform::mirror_outcome;
use crate::error::ErrorKind;
use crate::record::MethodModel;
use crate::validate::{
    extracted, lemma_first_type_within, lemma_first_violation_within, member_violation,
    method_violation, record_violation, shapes_agree, symmetry_slot,
};

verus! {

/// What a call of the method at position `item` of `record` returns for a
/// receiver and another operand.
///
/// `meaning` says what the hand-written method of a given name returns in the
/// implementation of a given interface for a given type, from its receiver
/// and its other operand. A hand-written body is that method of the record
/// itself. A delegating body calls the method that it names, and hands it as
/// receiver what its argument is bound to, the other operand, and as other
/// operand its own receiver.
pub open spec fn method_result<V>(
    record: RecordModel,
    item: int,
    meaning: spec_fn(InterfaceModel, TypeModel, Seq<char>, V, V) -> V,
    receiver: V,
    other: V,
) -> V
    recommends
        0 <= item < record.items.len(),
        record.items[item] is Method,
        record.interface is Some,
{
    let method = record.items[item]->Method_0;
    match method.body {
        MethodBodyModel::Block(_) => meaning(
            record.interface->0,
            record.self_ty,
            method.name,
            receiver,
            other,
        ),
        MethodBodyModel::Delegation { implementor, interface, method: callee, argument } => {
            if argument == method.params[0].pattern->name {
                meaning(interface, implementor, callee, other, receiver)
            } else {
                arbitrary()
            }
        },
    }
}

/// The hand-written output type that the output type at position `item` of
/// `record` stands for: the implementation, given by its interface and its
/// implementing type, and the name under which that implementation binds it.
/// A type chosen by hand is the record's own; a projection names another.
pub open spec fn output_source(record: RecordModel, item: int) -> (
    InterfaceModel,
    TypeModel,
    Seq<char>,
)
    recommends
        0 <= item < record.items.len(),
        record.items[item] is OutputType,
        record.interface is Some,
{
    let output = record.items[item]->OutputType_0;
    match output.binding {
        OutputBindingModel::Type(_) => (record.interface->0, record.self_ty, output.name),
        OutputBindingModel::Projection { implementor, interface, name } => (
            interface,
            implementor,
            name,
        ),
    }
}

/// Symmetry. Let `record` be valid, with a hand-written method at position
/// `item`. Whatever the hand-written implementations mean, the mirror's
/// method at that position, called on `b` with the other operand `a`,
/// returns what the record's method returns when called on `a` with the
/// other operand `b`.
pub proof fn law_symmetry<V>(
    record: RecordModel,
    item: int,
    meaning: spec_fn(InterfaceModel, TypeModel, Seq<char>, V, V) -> V,
    a: V,
    b: V,
)
    requires
        record_violation(record) is None,
        0 <= item < record.items.len(),
        record.items[item] matches MemberModel::Method(method) && method.body is Block,
    ensures
        mirror_outcome(record) matches Ok(mirror) && method_result(mirror, item, meaning, b, a)
            == method_result(record, item, meaning, a, b),
{
    lemma_first_violation_within(record.items, record.items.len());
    assert(member_violation(record.items[item], item as usize) is None);
}

/// Output types agree. Let `record` be valid, with an output type chosen by
/// hand at position `item`. The mirror's output type at that position is the
/// projection of the output type of the same name from the record's own
/// implementation, so both stand for the same hand-written type. The mirror
/// of a record with the same model is the same.
pub proof fn law_output_projection(record: RecordModel, again: RecordModel, item: int)
    requires
        record_violation(record) is None,
        again == record,
        0 <= item < record.items.len(),
        record.items[item] matches MemberModel::OutputType(output) && output.binding is Type,
    ensures
        mirror_outcome(record) matches Ok(mirror) && {
            &&& mirror.items[item] matches MemberModel::OutputType(output)
            &&& output.name == record.items[item]->OutputType_0.name
            &&& output.binding == (OutputBindingModel::Projection {
                implementor: record.self_ty,
                interface: record.interface->0,
                name: output.name,
            })
            &&& output_source(mirror, item) == output_source(record, item)
            &&& mirror_outcome(again) == mirror_outcome(record)
        },
{
}

/// Shapes are kept. Let `record` be valid, with a method at position `item`.
/// The mirror's method at that position has the same receiver: by value or by
/// reference, `mut` or not, and with the same lifetime. Its other input is
/// bound by the same pattern, and is a reference exactly if it was one
/// before, with the same `mut` and the same lifetime.
pub proof fn law_shape_preserved(record: RecordModel, item: int)
    requires
        record_violation(record) is None,
        0 <= item < record.items.len(),
        record.items[item] is Method,
    ensures
        mirror_outcome(record) matches Ok(mirror) && {
            let before = record.items[item]->Method_0;
            &&& mirror.items[item] matches MemberModel::Method(after)
            &&& after.receiver == before.receiver
            &&& after.params.len() == 1
            &&& after.params[0].pattern == before.params[0].pattern
            &&& match before.params[0].ty {
                TypeModel::Reference { lifetime, mutable, .. } => after.params[0].ty
                    == (TypeModel::Reference {
                    lifetime,
                    mutable,
                    elem: Box::new(record.self_ty),
                }),
                TypeModel::Verbatim(_) => after.params[0].ty == record.self_ty,
            }
        },
{
}

/// The two types change places. The mirror of a valid record implements the
/// same interface, with the record's implementing type in the symmetry slot
/// and every other argument as it was, for the type that stood in the slot.
/// It has as many members, and its generic parameters and `where` clause are
/// the record's.
pub proof fn law_types_swapped(record: RecordModel)
    requires
        record_violation(record) is None,
    ensures
        mirror_outcome(record) matches Ok(mirror) && {
            let shape = extracted(record);
            let arguments = mirror.interface->0.arguments->AngleBracketed_0;
            &&& mirror.interface matches Some(interface)
            &&& !interface.negated
            &&& interface.path == shape.path
            &&& interface.arguments is AngleBracketed
            &&& arguments.len() == shape.arguments.len()
            &&& 0 <= shape.slot < arguments.len()
            &&& shape.arguments[shape.slot as int] is Type
            &&& arguments[shape.slot as int] == GenericArgModel::Type(
                record.self_ty,
            )
            &&& forall|i: int|
                0 <= i < arguments.len() && i != shape.slot ==> #[trigger] arguments[i]
                    == shape.arguments[i]
            &&& mirror.self_ty == shape.arguments[shape.slot as int]->Type_0
            &&& mirror.items.len() == record.items.len()
            &&& mirror.generics == record.generics
            &&& mirror.where_clause == record.where_clause
        },
{
    let shape = extracted(record);
    lemma_first_type_within(shape.arguments, shape.arguments.len());
}

/// What a valid record is. It implements an interface that is not negated
/// and has a bracketed argument list with a type in it. Each of its methods
/// is not variadic and takes a receiver and one other input, which is bound
/// to a name. Where the receiver is a reference, the other input is a
/// reference with the same `mut` and the same lifetime; where the receiver is
/// taken by value, the other input is no reference and its name has the same
/// `mut`.
pub proof fn law_valid_record(record: RecordModel, item: int)
    requires
        record_violation(record) is None,
        0 <= item < record.items.len(),
        record.items[item] is Method,
    ensures
        record.interface matches Some(interface) && {
            &&& !interface.negated
            &&& interface.arguments matches crate::interface::PathArgumentsModel::AngleBracketed(
                arguments,
            )
            &&& symmetry_slot(arguments) matches Some(slot)
            &&& slot < arguments.len()
            &&& arguments[slot as int] is Type
        },
        ({
            let method = record.items[item]->Method_0;
            &&& !method.variadic
            &&& method.receiver is Some
            &&& method.params.len() == 1
            &&& method.params[0].pattern is Ident
            &&& match method.receiver->0.shape {
                ReceiverShapeModel::Reference { lifetime, mutable } => {
                    &&& method.params[0].ty matches TypeModel::Reference {
                        lifetime: other_lifetime,
                        mutable: other_mutable,
                        ..
                    }
                    &&& other_lifetime == lifetime
                    &&& other_mutable == mutable
                },
                ReceiverShapeModel::Value { mutable } => {
                    &&& method.params[0].ty is Verbatim
                    &&& method.params[0].pattern->mutable == mutable
                },
            }
        }),
{
    lemma_first_violation_within(record.items, record.items.len());
    assert(member_violation(record.items[item], item as usize) is None);
    let arguments = record.interface->0.arguments->AngleBracketed_0;
    lemma_first_type_within(arguments, arguments.len());
}

/// Whether the record implements an interface that is not negated and has a
/// bracketed argument list with a type in it.
pub open spec fn interface_qualifies(record: RecordModel) -> bool {
    &&& record.interface matches Some(interface)
    &&& !interface.negated
    &&& interface.arguments matches crate::interface::PathArgumentsModel::AngleBracketed(
        arguments,
    )
    &&& symmetry_slot(arguments) is Some
}

/// The kind of a method's error is that of the first kind of rule that the
/// method breaks. It is an arity error exactly if the method is variadic or
/// does not take two inputs. It is a shape mismatch exactly if the method
/// passes that and its first input is no receiver or the two inputs are not
/// taken alike. It is a pattern error exactly if the method passes all of
/// that and its other input is not bound to a name. There is no error
/// exactly if the method passes all of it.
pub proof fn law_method_rule_order(method: MethodModel, item: usize)
    ensures
        ({
            let arity_kept = !method.variadic && method.arity() == 2;
            let shape_kept = method.receiver matches Some(receiver) && shapes_agree(
                receiver.shape,
                method.params[0],
            );
            let pattern_kept = method.params[0].pattern is Ident;
            match method_violation(method, item) {
                Some(error) => match error.violation.spec_kind() {
                    ErrorKind::StructuralError => false,
                    ErrorKind::ArityError => !arity_kept,
                    ErrorKind::ShapeMismatchError => arity_kept && !shape_kept,
                    ErrorKind::PatternError => arity_kept && shape_kept && !pattern_kept,
                },
                None => arity_kept && shape_kept && pattern_kept,
            }
        }),
{
}

/// The rules on the interface come before those on the methods. A record
/// whose interface does not qualify gives a structural error, whatever its
/// members are; a record whose interface qualifies gives no structural
/// error, and gives the error of the first member that breaks a rule, if one
/// does.
pub proof fn law_record_rule_order(record: RecordModel)
    ensures
        !interface_qualifies(record) ==> (record_violation(record) matches Some(error)
            && error.violation.spec_kind() == ErrorKind::StructuralError),
        interface_qualifies(record) ==> match record_violation(record) {
            Some(error) => {
                &&& error.violation.spec_kind() != ErrorKind::StructuralError
                &&& exists|i: int|
                    0 <= i < record.items.len() && #[trigger] member_violation(
                        record.items[i],
                        i as usize,
                    ) == Some(error) && forall|j: int|
                        0 <= j < i ==> #[trigger] member_violation(record.items[j], j as usize)
                            is None
            },
            None => forall|j: int|
                0 <= j < record.items.len() ==> #[trigger] member_violation(
                    record.items[j],
                    j as usize,
                ) is None,
        },
{
    lemma_first_violation_within(record.items, record.items.len());
    if interface_qualifies(record) && record_violation(record) is Some {
        let error = record_violation(record)->0;
        let i = choose|i: int|
            0 <= i < record.items.len() && #[trigger] member_violation(
                record.items[i],
                i as usize,
            ) == Some(error) && forall|j: int|
                0 <= j < i ==> #[trigger] member_violation(record.items[j], j as usize)
                    is None;
        if record.items[i] is Method {
            law_method_rule_order(record.items[i]->Method_0, i as usize);
        }
    }
}

} // verus!
