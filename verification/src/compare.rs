//! Structural equality over mirrored trees: two nodes are equal exactly
//! when their mathematical views coincide — same kinds, same scalar
//! payloads, same ordering throughout.
//!
//! The node schema itself does not promise equality to its consumers; these
//! functions are offered beside it for callers that want to compare two
//! mirrored documents, and each one's contract says precisely that it
//! decides view equality.

use vstd::prelude::*;

use crate::nodes::ArgumentNode;
use crate::nodes::DirectiveNode;
use crate::nodes::DocumentNode;
use crate::nodes::FieldNode;
use crate::nodes::NameNode;
use crate::nodes::OperationDefinitionNode;
use crate::nodes::SelectionSetNode;
use crate::nodes::TypeNode;
use crate::nodes::TypeView;
use crate::nodes::ValueNode;
use crate::nodes::VariableDefinitionNode;
use crate::nodes::argument_view;
use crate::nodes::directive_view;
use crate::nodes::field_view;
use crate::nodes::opt_name_view;
use crate::nodes::selection_set_view;
use crate::nodes::nullable_type_view;
use crate::nodes::value_view;
use crate::nodes::variable_definition_view;

verus! {

broadcast use vstd::std_specs::vec::group_vec_axioms;

fn name_eq(a: &NameNode, b: &NameNode) -> (r: bool)
    ensures
        r == (a.value@ == b.value@),
{
    a.value == b.value
}

fn opt_name_eq(a: &Option<NameNode>, b: &Option<NameNode>) -> (r: bool)
    ensures
        r == (opt_name_view(*a) == opt_name_view(*b)),
{
    match (a, b) {
        (Option::Some(x), Option::Some(y)) => name_eq(x, y),
        (Option::None, Option::None) => true,
        _ => false,
    }
}

/// Whether two value nodes are structurally identical.
pub fn value_eq(a: &ValueNode, b: &ValueNode) -> (r: bool)
    ensures
        r == (a@ == b@),
    decreases *a,
{
    match (a, b) {
        (ValueNode::Null(x), ValueNode::Null(y)) => true,
        (ValueNode::Enum(x), ValueNode::Enum(y)) => x.value == y.value,
        (ValueNode::Variable(x), ValueNode::Variable(y)) => name_eq(&x.name, &y.name),
        (ValueNode::Str(x), ValueNode::Str(y)) => {
            let block_eq = match (x.block, y.block) {
                (Option::Some(p), Option::Some(q)) => p == q,
                (Option::None, Option::None) => true,
                _ => false,
            };
            block_eq && x.value == y.value
        },
        (ValueNode::Float(x), ValueNode::Float(y)) => x.value == y.value,
        (ValueNode::Int(x), ValueNode::Int(y)) => x.value == y.value,
        (ValueNode::Boolean(x), ValueNode::Boolean(y)) => x.value == y.value,
        (ValueNode::List(x), ValueNode::List(y)) => {
            if x.values.len() != y.values.len() {
                proof {
                    assert(a@->values.len() != b@->values.len());
                }
                return false;
            }
            let mut i: usize = 0;
            while i < x.values.len()
                invariant
                    i <= x.values.len(),
                    *a is List,
                    *x == (*a)->List_0,
                    *y == (*b)->List_0,
                    *b is List,
                    x.values@.len() == y.values@.len(),
                    forall|j: int|
                        0 <= j < i as int ==> value_view(#[trigger] x.values@[j]) == value_view(
                            y.values@[j],
                        ),
                decreases x.values@.len() - i as int,
            {
                if !value_eq(&x.values[i], &y.values[i]) {
                    proof {
                        assert(a@->values[i as int] != b@->values[i as int]);
                    }
                    return false;
                }
                i = i + 1;
            }
            proof {
                assert(a@->values =~= b@->values);
                assert(a@ =~= b@);
            }
            true
        },
        (ValueNode::Object(x), ValueNode::Object(y)) => {
            if x.fields.len() != y.fields.len() {
                proof {
                    assert(a@->fields.len() != b@->fields.len());
                }
                return false;
            }
            let mut i: usize = 0;
            while i < x.fields.len()
                invariant
                    i <= x.fields.len(),
                    *a is Object,
                    *x == (*a)->Object_0,
                    *b is Object,
                    *y == (*b)->Object_0,
                    x.fields@.len() == y.fields@.len(),
                    forall|j: int|
                        0 <= j < i as int ==> (#[trigger] x.fields@[j]).name.value@
                            == y.fields@[j].name.value@,
                    forall|j: int|
                        0 <= j < i as int ==> value_view((#[trigger] x.fields@[j]).value)
                            == value_view(y.fields@[j].value),
                decreases x.fields@.len() - i as int,
            {
                let fx = &x.fields[i];
                let fy = &y.fields[i];
                if !name_eq(&fx.name, &fy.name) {
                    proof {
                        assert(a@->fields[i as int].name != b@->fields[i as int].name);
                    }
                    return false;
                }
                if !value_eq(&fx.value, &fy.value) {
                    proof {
                        assert(a@->fields[i as int].value != b@->fields[i as int].value);
                    }
                    return false;
                }
                i = i + 1;
            }
            proof {
                assert(a@->fields =~= b@->fields);
                assert(a@ =~= b@);
            }
            true
        },
        _ => {
            proof {
                assert(a@ != b@);
            }
            false
        },
    }
}

/// Whether two type nodes are structurally identical.
pub fn type_eq(a: &TypeNode, b: &TypeNode) -> (r: bool)
    ensures
        r == (a@ == b@),
    decreases *a,
{
    match (a, b) {
        (TypeNode::Named(x), TypeNode::Named(y)) => name_eq(&x.name, &y.name),
        (TypeNode::List(x), TypeNode::List(y)) => type_eq(&x.ty, &y.ty),
        (TypeNode::NonNull(x), TypeNode::NonNull(y)) => {
            match (&x.ty, &y.ty) {
                (
                    crate::nodes::NullableTypeNode::Named(p),
                    crate::nodes::NullableTypeNode::Named(q),
                ) => {
                    let r = name_eq(&p.name, &q.name);
                    proof {
                        assert(nullable_type_view(x.ty) == (TypeView::Named {
                            name: p.name.value@,
                        }));
                        assert(nullable_type_view(y.ty) == (TypeView::Named {
                            name: q.name.value@,
                        }));
                    }
                    r
                },
                (
                    crate::nodes::NullableTypeNode::List(p),
                    crate::nodes::NullableTypeNode::List(q),
                ) => {
                    let r = type_eq(&p.ty, &q.ty);
                    proof {
                        assert(nullable_type_view(x.ty) == (TypeView::List {
                            ty: Box::new(crate::nodes::type_view(*p.ty)),
                        }));
                        assert(nullable_type_view(y.ty) == (TypeView::List {
                            ty: Box::new(crate::nodes::type_view(*q.ty)),
                        }));
                    }
                    r
                },
                (
                    crate::nodes::NullableTypeNode::Named(p),
                    crate::nodes::NullableTypeNode::List(q),
                ) => {
                    proof {
                        assert(nullable_type_view(x.ty) is Named);
                        assert(nullable_type_view(y.ty) is List);
                    }
                    false
                },
                (
                    crate::nodes::NullableTypeNode::List(p),
                    crate::nodes::NullableTypeNode::Named(q),
                ) => {
                    proof {
                        assert(nullable_type_view(x.ty) is List);
                        assert(nullable_type_view(y.ty) is Named);
                    }
                    false
                },
            }
        },
        (TypeNode::Named(x), _) => {
            proof {
                assert(a@ is Named && !(b@ is Named));
            }
            false
        },
        (TypeNode::List(x), _) => {
            proof {
                assert(a@ is List && !(b@ is List));
            }
            false
        },
        (TypeNode::NonNull(x), _) => {
            proof {
                assert(a@ is NonNull && !(b@ is NonNull));
            }
            false
        },
    }
}

/// Whether two argument nodes are structurally identical.
pub fn argument_eq(a: &ArgumentNode, b: &ArgumentNode) -> (r: bool)
    ensures
        r == (a@ == b@),
{
    name_eq(&a.name, &b.name) && value_eq(&a.value, &b.value)
}

/// Whether two directive nodes are structurally identical.
pub fn directive_eq(a: &DirectiveNode, b: &DirectiveNode) -> (r: bool)
    ensures
        r == (a@ == b@),
{
    if !name_eq(&a.name, &b.name) {
        proof {
            assert(a@.name != b@.name);
        }
        return false;
    }
    if a.arguments.len() != b.arguments.len() {
        proof {
            assert(a@.arguments.len() != b@.arguments.len());
        }
        return false;
    }
    let mut i: usize = 0;
    while i < a.arguments.len()
        invariant
            i <= a.arguments.len(),
            a.arguments@.len() == b.arguments@.len(),
            forall|j: int|
                0 <= j < i as int ==> argument_view(#[trigger] a.arguments@[j]) == argument_view(
                    b.arguments@[j],
                ),
        decreases a.arguments@.len() - i as int,
    {
        if !argument_eq(&a.arguments[i], &b.arguments[i]) {
            proof {
                assert(a@.arguments[i as int] != b@.arguments[i as int]);
            }
            return false;
        }
        i = i + 1;
    }
    proof {
        assert(a@.arguments =~= b@.arguments);
        assert(a@ =~= b@);
    }
    true
}

fn directives_eq(a: &Vec<DirectiveNode>, b: &Vec<DirectiveNode>) -> (r: bool)
    ensures
        r == (Seq::new(a@.len(), |i: int| directive_view(a@[i])) == Seq::new(
            b@.len(),
            |i: int| directive_view(b@[i]),
        )),
{
    let ghost av = Seq::new(a@.len(), |i: int| directive_view(a@[i]));
    let ghost bv = Seq::new(b@.len(), |i: int| directive_view(b@[i]));
    if a.len() != b.len() {
        proof {
            assert(av.len() != bv.len());
        }
        return false;
    }
    let mut i: usize = 0;
    while i < a.len()
        invariant
            i <= a.len(),
            a@.len() == b@.len(),
            av == Seq::new(a@.len(), |k: int| directive_view(a@[k])),
            bv == Seq::new(b@.len(), |k: int| directive_view(b@[k])),
            forall|j: int|
                0 <= j < i as int ==> directive_view(#[trigger] a@[j]) == directive_view(b@[j]),
        decreases a@.len() - i as int,
    {
        if !directive_eq(&a[i], &b[i]) {
            proof {
                assert(av[i as int] != bv[i as int]);
            }
            return false;
        }
        i = i + 1;
    }
    proof {
        assert(av =~= bv);
    }
    true
}

/// Whether two variable-definition nodes are structurally identical.
pub fn variable_definition_eq(a: &VariableDefinitionNode, b: &VariableDefinitionNode) -> (r: bool)
    ensures
        r == (a@ == b@),
{
    if !name_eq(&a.variable.name, &b.variable.name) {
        proof {
            assert(a@.variable != b@.variable);
        }
        return false;
    }
    if !type_eq(&a.ty, &b.ty) {
        proof {
            assert(a@.ty != b@.ty);
        }
        return false;
    }
    let defaults_eq = match (&a.default_value, &b.default_value) {
        (Option::Some(x), Option::Some(y)) => value_eq(x, y),
        (Option::None, Option::None) => true,
        _ => false,
    };
    if !defaults_eq {
        proof {
            assert(a@.default_value != b@.default_value);
        }
        return false;
    }
    let r = directives_eq(&a.directives, &b.directives);
    proof {
        if r {
            assert(a@ =~= b@);
        } else {
            assert(a@.directives != b@.directives);
        }
    }
    r
}

/// Whether two field nodes are structurally identical.
pub fn field_eq(a: &FieldNode, b: &FieldNode) -> (r: bool)
    ensures
        r == (a@ == b@),
    decreases *a,
{
    if !opt_name_eq(&a.alias, &b.alias) {
        proof {
            assert(a@.alias != b@.alias);
        }
        return false;
    }
    if !name_eq(&a.name, &b.name) {
        proof {
            assert(a@.name != b@.name);
        }
        return false;
    }
    if a.arguments.len() != b.arguments.len() {
        proof {
            assert(a@.arguments.len() != b@.arguments.len());
        }
        return false;
    }
    let mut i: usize = 0;
    while i < a.arguments.len()
        invariant
            i <= a.arguments.len(),
            a.arguments@.len() == b.arguments@.len(),
            forall|j: int|
                0 <= j < i as int ==> argument_view(#[trigger] a.arguments@[j]) == argument_view(
                    b.arguments@[j],
                ),
        decreases a.arguments@.len() - i as int,
    {
        if !argument_eq(&a.arguments[i], &b.arguments[i]) {
            proof {
                assert(a@.arguments[i as int] != b@.arguments[i as int]);
            }
            return false;
        }
        i = i + 1;
    }
    if !directives_eq(&a.directives, &b.directives) {
        proof {
            assert(a@.directives != b@.directives);
        }
        return false;
    }
    let r = match (&a.selection_set, &b.selection_set) {
        (Option::Some(x), Option::Some(y)) => {
            let q = selection_set_eq(x, y);
            proof {
                assert(a@.selection_set == Option::Some(selection_set_view(*x)));
                assert(b@.selection_set == Option::Some(selection_set_view(*y)));
            }
            q
        },
        (Option::None, Option::None) => true,
        _ => {
            proof {
                assert(a@.selection_set is Some != b@.selection_set is Some);
            }
            false
        },
    };
    proof {
        if r {
            assert(a@.arguments =~= b@.arguments);
            assert(a@ =~= b@);
        } else {
            assert(a@.selection_set != b@.selection_set);
        }
    }
    r
}

/// Whether two selection sets are structurally identical.
pub fn selection_set_eq(a: &SelectionSetNode, b: &SelectionSetNode) -> (r: bool)
    ensures
        r == (a@ == b@),
    decreases *a,
{
    if a.selections.len() != b.selections.len() {
        proof {
            assert(a@.len() != b@.len());
        }
        return false;
    }
    let mut i: usize = 0;
    while i < a.selections.len()
        invariant
            i <= a.selections.len(),
            a.selections@.len() == b.selections@.len(),
            forall|j: int|
                0 <= j < i as int ==> field_view(#[trigger] a.selections@[j]) == field_view(
                    b.selections@[j],
                ),
        decreases a.selections@.len() - i as int,
    {
        if !field_eq(&a.selections[i], &b.selections[i]) {
            proof {
                assert(a@[i as int] != b@[i as int]);
            }
            return false;
        }
        i = i + 1;
    }
    proof {
        assert(a@ =~= b@);
    }
    true
}

/// Whether two operation definitions are structurally identical.
pub fn operation_eq(a: &OperationDefinitionNode, b: &OperationDefinitionNode) -> (r: bool)
    ensures
        r == (a@ == b@),
{
    if !(a.operation == b.operation) {
        proof {
            assert(a@.operation != b@.operation);
        }
        return false;
    }
    if !opt_name_eq(&a.name, &b.name) {
        proof {
            assert(a@.name != b@.name);
        }
        return false;
    }
    if !directives_eq(&a.directives, &b.directives) {
        proof {
            assert(a@.directives != b@.directives);
        }
        return false;
    }
    if a.variable_definitions.len() != b.variable_definitions.len() {
        proof {
            assert(a@.variable_definitions.len() != b@.variable_definitions.len());
        }
        return false;
    }
    let mut i: usize = 0;
    while i < a.variable_definitions.len()
        invariant
            i <= a.variable_definitions.len(),
            a.variable_definitions@.len() == b.variable_definitions@.len(),
            forall|j: int|
                0 <= j < i as int ==> variable_definition_view(
                    #[trigger] a.variable_definitions@[j],
                ) == variable_definition_view(b.variable_definitions@[j]),
        decreases a.variable_definitions@.len() - i as int,
    {
        if !variable_definition_eq(&a.variable_definitions[i], &b.variable_definitions[i]) {
            proof {
                assert(a@.variable_definitions[i as int] != b@.variable_definitions[i as int]);
            }
            return false;
        }
        i = i + 1;
    }
    let r = selection_set_eq(&a.selection_set, &b.selection_set);
    proof {
        if r {
            assert(a@.variable_definitions =~= b@.variable_definitions);
            assert(a@ =~= b@);
        } else {
            assert(a@.selections != b@.selections);
        }
    }
    r
}

/// Whether two mirrored documents are structurally identical: same kinds,
/// same scalar payloads, same ordering, throughout both trees.
pub fn document_eq(a: &DocumentNode, b: &DocumentNode) -> (r: bool)
    ensures
        r == (a@ == b@),
{
    if a.definitions.len() != b.definitions.len() {
        proof {
            assert(a@.definitions.len() != b@.definitions.len());
        }
        return false;
    }
    let mut i: usize = 0;
    while i < a.definitions.len()
        invariant
            i <= a.definitions.len(),
            a.definitions@.len() == b.definitions@.len(),
            forall|j: int|
                0 <= j < i as int ==> crate::nodes::operation_definition_view(
                    #[trigger] a.definitions@[j],
                ) == crate::nodes::operation_definition_view(b.definitions@[j]),
        decreases a.definitions@.len() - i as int,
    {
        if !operation_eq(&a.definitions[i], &b.definitions[i]) {
            proof {
                assert(a@.definitions[i as int] != b@.definitions[i as int]);
            }
            return false;
        }
        i = i + 1;
    }
    proof {
        assert(a@.definitions =~= b@.definitions);
        assert(a@ =~= b@);
    }
    true
}

} // verus!
