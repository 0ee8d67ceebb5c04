//! The structural guarantees of the mirroring, stated and proved once, over
//! the same views and spec functions that the converter's contracts use.

use vstd::prelude::*;

use crate::convert::mirror_argument;
use crate::convert::mirror_directive;
use crate::convert::mirror_document;
use crate::convert::mirror_field;
use crate::convert::mirror_operation;
use crate::convert::mirror_selection;
use crate::convert::mirror_type;
use crate::convert::mirror_value;
use crate::convert::mirror_variable_definition;
use crate::nodes::NullableTypeNode;
use crate::nodes::TypeNode;
use crate::nodes::TypeView;
use crate::nodes::ValueView;
use crate::nodes::nullable_type_view;
use crate::nodes::type_view;
use crate::nodes::type_view_wf;
use crate::source::SourceDirectiveView;
use crate::source::SourceDocumentView;
use crate::source::SourceFieldView;
use crate::source::SourceOperationView;
use crate::source::SourceTypeView;
use crate::source::SourceValueView;

verus! {

/// Order preservation at the document level: the mirrored document has one
/// definition per source operation, in source order, each the mirror of the
/// operation at the same position.
pub proof fn lemma_document_order(d: SourceDocumentView)
    ensures
        mirror_document(d).definitions.len() == d.operations.len(),
        forall|i: int|
            0 <= i < d.operations.len() ==> mirror_document(d).definitions[i] == mirror_operation(
                #[trigger] d.operations[i],
            ),
{
}

/// Order preservation at the operation level: directives, variable
/// definitions and selections each keep their length and relative order.
pub proof fn lemma_operation_order(op: SourceOperationView)
    ensures
        mirror_operation(op).directives.len() == op.directives.len(),
        forall|i: int|
            0 <= i < op.directives.len() ==> mirror_operation(op).directives[i]
                == mirror_directive(#[trigger] op.directives[i]),
        mirror_operation(op).variable_definitions.len() == op.variables.len(),
        forall|i: int|
            0 <= i < op.variables.len() ==> mirror_operation(op).variable_definitions[i]
                == mirror_variable_definition(#[trigger] op.variables[i]),
        mirror_operation(op).selections.len() == op.selections.len(),
        forall|i: int|
            0 <= i < op.selections.len() ==> mirror_operation(op).selections[i]
                == mirror_selection(#[trigger] op.selections[i]),
{
}

/// Order preservation at the field level: arguments and directives keep
/// their length and relative order, and a present selection set keeps the
/// length and order of the source's sub-selections.
pub proof fn lemma_field_order(f: SourceFieldView)
    ensures
        mirror_field(f).arguments.len() == f.arguments.len(),
        forall|i: int|
            0 <= i < f.arguments.len() ==> mirror_field(f).arguments[i] == mirror_argument(
                #[trigger] f.arguments[i],
            ),
        mirror_field(f).directives.len() == f.directives.len(),
        forall|i: int|
            0 <= i < f.directives.len() ==> mirror_field(f).directives[i] == mirror_directive(
                #[trigger] f.directives[i],
            ),
        f.selections.len() > 0 ==> (mirror_field(f).selection_set matches Option::Some(ss)
            && ss.len() == f.selections.len() && forall|i: int|
            0 <= i < f.selections.len() ==> ss[i] == mirror_selection(#[trigger] f.selections[i])),
{
}

/// Order preservation at the directive level: arguments keep their length
/// and relative order.
pub proof fn lemma_directive_order(d: SourceDirectiveView)
    ensures
        mirror_directive(d).arguments.len() == d.arguments.len(),
        forall|i: int|
            0 <= i < d.arguments.len() ==> mirror_directive(d).arguments[i] == mirror_argument(
                #[trigger] d.arguments[i],
            ),
{
}

/// Order preservation inside values: a list value keeps the length and
/// order of its elements, and an object value keeps the length and order of
/// its fields, each field keeping its name beside its mirrored value.
pub proof fn lemma_value_order(v: SourceValueView)
    ensures
        v matches SourceValueView::List(vs) ==> (mirror_value(v) matches ValueView::List {
            values,
        } && values.len() == vs.len() && forall|i: int|
            0 <= i < vs.len() ==> values[i] == mirror_value(#[trigger] vs[i])),
        v matches SourceValueView::Object(fs) ==> (mirror_value(v) matches ValueView::Object {
            fields,
        } && fields.len() == fs.len() && forall|i: int|
            0 <= i < fs.len() ==> fields[i].name == (#[trigger] fs[i]).name && fields[i].value
                == mirror_value(fs[i].value)),
{
}

/// Optional never collapses into empty: the mirrored field has no selection
/// set exactly when the source field has no sub-selections, and otherwise
/// has one of exactly the source's length.
pub proof fn lemma_field_selection_set_presence(f: SourceFieldView)
    ensures
        mirror_field(f).selection_set is None <==> f.selections.len() == 0,
        f.selections.len() > 0 ==> (mirror_field(f).selection_set matches Option::Some(ss)
            && ss.len() == f.selections.len()),
{
}

/// No mirrored type ever wraps a non-null directly in a non-null, whatever
/// the source type was.
pub proof fn lemma_mirror_type_wf(t: SourceTypeView)
    ensures
        type_view_wf(mirror_type(t)),
    decreases t,
{
    match t {
        SourceTypeView::Named(n) => {
            assert(type_view_wf(mirror_type(t)));
        },
        SourceTypeView::NonNullNamed(n) => {
            assert(type_view_wf(TypeView::Named { name: n }));
            assert(type_view_wf(mirror_type(t)));
        },
        SourceTypeView::List(inner) => {
            lemma_mirror_type_wf(*inner);
            assert(type_view_wf(mirror_type(t)));
        },
        SourceTypeView::NonNullList(inner) => {
            lemma_mirror_type_wf(*inner);
            assert(type_view_wf(TypeView::List { ty: Box::new(mirror_type(*inner)) }));
            assert(type_view_wf(mirror_type(t)));
        },
    }
}

/// The shape of the mirrored type nodes enforces the same invariant
/// structurally: whatever a `TypeNode` value holds, its view never wraps a
/// non-null directly in a non-null.
pub proof fn lemma_type_node_wf(t: TypeNode)
    ensures
        type_view_wf(type_view(t)),
    decreases t,
{
    match t {
        TypeNode::Named(n) => {
            assert(type_view_wf(type_view(t)));
        },
        TypeNode::List(l) => {
            lemma_type_node_wf(*l.ty);
            assert(type_view_wf(type_view(t)));
        },
        TypeNode::NonNull(n) => {
            match n.ty {
                NullableTypeNode::Named(nm) => {
                    assert(nullable_type_view(n.ty) == (TypeView::Named { name: nm.name.value@ }));
                    assert(type_view_wf(nullable_type_view(n.ty)));
                    assert(type_view_wf(type_view(t)));
                },
                NullableTypeNode::List(l) => {
                    lemma_type_node_wf(*l.ty);
                    assert(nullable_type_view(n.ty) == (TypeView::List {
                        ty: Box::new(type_view(*l.ty)),
                    }));
                    assert(type_view_wf(nullable_type_view(n.ty)));
                    assert(type_view_wf(type_view(t)));
                },
            }
        },
    }
}

/// The mirror of a document is a function of the source view alone: any two
/// mirrorings of the same source are one and the same tree.  Together with
/// the converter's contract — its result's view equals `mirror_document` of
/// its input's view — converting a document twice yields structurally
/// identical results.
pub proof fn lemma_mirror_deterministic(
    d: SourceDocumentView,
    m1: crate::nodes::DocumentView,
    m2: crate::nodes::DocumentView,
)
    requires
        m1 == mirror_document(d),
        m2 == mirror_document(d),
    ensures
        m1 == m2,
{
}

} // verus!
