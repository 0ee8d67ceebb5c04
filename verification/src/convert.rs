//! The mirror converter: a pure, total, structure-preserving transduction
//! from a source executable document to the mirrored node schema.
//!
//! The mathematical content lives in the `mirror_*` spec functions, which map
//! source views to mirrored views bottom-up, preserving the length and order
//! of every collection and the distinction between an absent and an empty
//! selection set.  The executable `convert_*` functions each promise to
//! return exactly the mirrored view of their input.
//!
//! Selections other than plain fields, and fragment definitions at the
//! document level, have no mirroring rule.  A document holding one is
//! refused with a [`ConvertError`] naming the offending node kind; the
//! `*_error` spec functions pin exactly which error each input yields, and
//! conversion succeeds if and only if they find nothing.

use vstd::prelude::*;

use crate::nodes::ArgumentNode;
use crate::nodes::ArgumentView;
use crate::nodes::BooleanValueNode;
use crate::nodes::DirectiveNode;
use crate::nodes::DirectiveView;
use crate::nodes::DocumentNode;
use crate::nodes::DocumentView;
use crate::nodes::EnumValueNode;
use crate::nodes::FieldNode;
use crate::nodes::FieldView;
use crate::nodes::FloatValueNode;
use crate::nodes::IntValueNode;
use crate::nodes::ListTypeNode;
use crate::nodes::ListValueNode;
use crate::nodes::NameNode;
use crate::nodes::NamedTypeNode;
use crate::nodes::NonNullTypeNode;
use crate::nodes::NullValueNode;
use crate::nodes::NullableTypeNode;
use crate::nodes::ObjectFieldNode;
use crate::nodes::ObjectFieldView;
use crate::nodes::ObjectValueNode;
use crate::nodes::OperationDefinitionNode;
use crate::nodes::OperationDefinitionView;
use crate::nodes::SelectionSetNode;
use crate::nodes::StringValueNode;
use crate::nodes::TypeNode;
use crate::nodes::TypeView;
use crate::nodes::ValueNode;
use crate::nodes::ValueView;
use crate::nodes::VariableDefinitionNode;
use crate::nodes::VariableDefinitionView;
use crate::nodes::VariableNode;
use crate::source::SourceArgument;
use crate::source::SourceArgumentView;
use crate::source::SourceDirective;
use crate::source::SourceDirectiveView;
use crate::source::SourceDocument;
use crate::source::SourceDocumentView;
use crate::source::SourceField;
use crate::source::SourceFieldView;
use crate::source::SourceOperation;
use crate::source::SourceOperationView;
use crate::source::SourceSelection;
use crate::source::SourceSelectionView;
use crate::source::SourceType;
use crate::source::SourceTypeView;
use crate::source::SourceValue;
use crate::source::SourceValueView;
use crate::source::SourceVariableDefinition;
use crate::source::SourceVariableDefinitionView;
use crate::source::source_selections_view;

verus! {

broadcast use vstd::std_specs::vec::group_vec_axioms;

/// Why a source document was refused: it held a node kind for which no
/// mirroring rule exists.
#[derive(Debug)]
pub enum ConvertError {
    /// A fragment definition stood at the document level.
    FragmentDefinition { name: String },
    /// A fragment spread stood in a selection set.
    FragmentSpread { name: String },
    /// An inline fragment stood in a selection set.
    InlineFragment,
}

/// View of `ConvertError`.
#[verifier::ext_equal]
pub enum ConvertErrorView {
    FragmentDefinition { name: Seq<char> },
    FragmentSpread { name: Seq<char> },
    InlineFragment,
}

impl View for ConvertError {
    type V = ConvertErrorView;

    open spec fn view(&self) -> ConvertErrorView {
        match *self {
            ConvertError::FragmentDefinition { name } => (ConvertErrorView::FragmentDefinition {
                name: name@,
            }),
            ConvertError::FragmentSpread { name } => (ConvertErrorView::FragmentSpread {
                name: name@,
            }),
            ConvertError::InlineFragment => ConvertErrorView::InlineFragment,
        }
    }
}

/// The mirror of a source value: same variant, same payload text, with list
/// elements and object fields mirrored in order.  The source grammar has no
/// block-string flag, so a mirrored string's `block` is unknown (`None`).
pub open spec fn mirror_value(v: SourceValueView) -> ValueView
    decreases v,
{
    match v {
        SourceValueView::Null => ValueView::Null,
        SourceValueView::Enum(s) => ValueView::Enum { value: s },
        SourceValueView::Variable(s) => ValueView::Variable { name: s },
        SourceValueView::Str(s) => ValueView::Str { value: s, block: Option::None },
        SourceValueView::Float(s) => ValueView::Float { value: s },
        SourceValueView::Int(s) => ValueView::Int { value: s },
        SourceValueView::Boolean(b) => ValueView::Boolean { value: b },
        SourceValueView::List(vs) => ValueView::List {
            values: Seq::new(
                vs.len(),
                |i: int| if 0 <= i < vs.len() {
                    mirror_value(vs[i])
                } else {
                    arbitrary()
                },
            ),
        },
        SourceValueView::Object(fs) => ValueView::Object {
            fields: Seq::new(
                fs.len(),
                |i: int| if 0 <= i < fs.len() {
                    ObjectFieldView { name: fs[i].name, value: mirror_value(fs[i].value) }
                } else {
                    arbitrary()
                },
            ),
        },
    }
}

/// The mirror of a source type reference.  A non-null-of-named becomes a
/// non-null node around a named node; a non-null-of-list becomes a non-null
/// node around a list node; no rule ever places a non-null directly inside a
/// non-null.
pub open spec fn mirror_type(t: SourceTypeView) -> TypeView
    decreases t,
{
    match t {
        SourceTypeView::Named(n) => TypeView::Named { name: n },
        SourceTypeView::NonNullNamed(n) => TypeView::NonNull {
            ty: Box::new(TypeView::Named { name: n }),
        },
        SourceTypeView::List(inner) => TypeView::List { ty: Box::new(mirror_type(*inner)) },
        SourceTypeView::NonNullList(inner) => TypeView::NonNull {
            ty: Box::new(TypeView::List { ty: Box::new(mirror_type(*inner)) }),
        },
    }
}

/// The mirror of an argument: its name, and its value mirrored.
pub open spec fn mirror_argument(a: SourceArgumentView) -> ArgumentView {
    ArgumentView { name: a.name, value: mirror_value(a.value) }
}

pub open spec fn mirror_arguments(s: Seq<SourceArgumentView>) -> Seq<ArgumentView> {
    Seq::new(s.len(), |i: int| mirror_argument(s[i]))
}

/// The mirror of a directive: its name, and its arguments mirrored in order.
pub open spec fn mirror_directive(d: SourceDirectiveView) -> DirectiveView {
    DirectiveView { name: d.name, arguments: mirror_arguments(d.arguments) }
}

pub open spec fn mirror_directives(s: Seq<SourceDirectiveView>) -> Seq<DirectiveView> {
    Seq::new(s.len(), |i: int| mirror_directive(s[i]))
}

/// The mirror of a variable definition: the variable's name, its type
/// mirrored, its default value mirrored when present, and its directives
/// mirrored in order.
pub open spec fn mirror_variable_definition(v: SourceVariableDefinitionView)
    -> VariableDefinitionView {
    VariableDefinitionView {
        variable: v.name,
        ty: mirror_type(v.ty),
        default_value: match v.default_value {
            Option::Some(d) => Option::Some(mirror_value(d)),
            Option::None => Option::None,
        },
        directives: mirror_directives(v.directives),
    }
}

pub open spec fn mirror_variable_definitions(s: Seq<SourceVariableDefinitionView>)
    -> Seq<VariableDefinitionView> {
    Seq::new(s.len(), |i: int| mirror_variable_definition(s[i]))
}

/// The mirror of a field selection.  The mirrored selection set is present
/// exactly when the source field has at least one sub-selection; a field
/// with none mirrors to a field with no selection set at all.
pub open spec fn mirror_field(f: SourceFieldView) -> FieldView
    decreases f,
{
    FieldView {
        alias: f.alias,
        name: f.name,
        arguments: mirror_arguments(f.arguments),
        directives: mirror_directives(f.directives),
        selection_set: if f.selections.len() == 0 {
            Option::None
        } else {
            Option::Some(mirror_selections(f.selections))
        },
    }
}

/// The mirror of one selection.  Only field selections have a mirroring
/// rule; on any other selection kind this function is unspecified, and the
/// converter refuses the document instead (see `selection_error`).
pub open spec fn mirror_selection(s: SourceSelectionView) -> FieldView
    decreases s,
{
    match s {
        SourceSelectionView::Field(f) => mirror_field(f),
        SourceSelectionView::FragmentSpread { fragment_name } => arbitrary(),
        SourceSelectionView::InlineFragment { type_condition } => arbitrary(),
    }
}

pub open spec fn mirror_selections(ss: Seq<SourceSelectionView>) -> Seq<FieldView>
    decreases ss,
{
    Seq::new(
        ss.len(),
        |i: int| if 0 <= i < ss.len() {
            mirror_selection(ss[i])
        } else {
            arbitrary()
        },
    )
}

/// The mirror of an operation definition: the same operation-kind tag, the
/// same optional name, and directives, variable definitions and the
/// selection set mirrored in order.
pub open spec fn mirror_operation(op: SourceOperationView) -> OperationDefinitionView {
    OperationDefinitionView {
        operation: op.operation_type,
        name: op.name,
        directives: mirror_directives(op.directives),
        variable_definitions: mirror_variable_definitions(op.variables),
        selections: mirror_selections(op.selections),
    }
}

pub open spec fn mirror_operations(ops: Seq<SourceOperationView>)
    -> Seq<OperationDefinitionView> {
    Seq::new(ops.len(), |i: int| mirror_operation(ops[i]))
}

/// The mirror of a whole document: every operation mirrored, in source
/// order.
pub open spec fn mirror_document(d: SourceDocumentView) -> DocumentView {
    DocumentView { definitions: mirror_operations(d.operations) }
}

/// The first unsupported node inside one selection, in traversal order:
/// a fragment spread or inline fragment is itself unsupported; a field is
/// searched through its sub-selections.
pub open spec fn selection_error(s: SourceSelectionView) -> Option<ConvertErrorView>
    decreases s,
{
    match s {
        SourceSelectionView::Field(f) => selections_error(f.selections),
        SourceSelectionView::FragmentSpread { fragment_name } => Option::Some(
            ConvertErrorView::FragmentSpread { name: fragment_name },
        ),
        SourceSelectionView::InlineFragment { type_condition } => Option::Some(
            ConvertErrorView::InlineFragment,
        ),
    }
}

/// The first unsupported node in a selection sequence, scanning in order.
pub open spec fn selections_error(ss: Seq<SourceSelectionView>) -> Option<ConvertErrorView>
    decreases ss,
{
    if ss.len() == 0 {
        Option::None
    } else {
        match selection_error(ss[0]) {
            Option::Some(e) => Option::Some(e),
            Option::None => selections_error(ss.subrange(1, ss.len() as int)),
        }
    }
}

/// The first unsupported node across the operations, scanning operations in
/// order and each operation's selection set in traversal order.
pub open spec fn operations_error(ops: Seq<SourceOperationView>) -> Option<ConvertErrorView>
    decreases ops,
{
    if ops.len() == 0 {
        Option::None
    } else {
        match selections_error(ops[0].selections) {
            Option::Some(e) => Option::Some(e),
            Option::None => operations_error(ops.subrange(1, ops.len() as int)),
        }
    }
}

/// What refusing a document reports: the first fragment definition by name,
/// if the document has any, else the first unsupported selection across its
/// operations.  `None` means the whole document can be mirrored.
pub open spec fn document_error(d: SourceDocumentView) -> Option<ConvertErrorView> {
    if d.fragments.len() > 0 {
        Option::Some(ConvertErrorView::FragmentDefinition { name: d.fragments[0] })
    } else {
        operations_error(d.operations)
    }
}

fn convert_name(s: &String) -> (r: NameNode)
    ensures
        r.value@ == s@,
{
    NameNode { value: s.clone() }
}

fn convert_opt_name(o: &Option<String>) -> (r: Option<NameNode>)
    ensures
        crate::nodes::opt_name_view(r) == crate::source::opt_string_view(*o),
{
    match o {
        Option::Some(s) => Option::Some(convert_name(s)),
        Option::None => Option::None,
    }
}

/// Mirror one source value, bottom-up.  Total over the closed nine-variant
/// union; the result is exactly the mirrored view of the input.
pub fn convert_value(v: &SourceValue) -> (r: ValueNode)
    ensures
        r@ == mirror_value(v@),
    decreases *v,
{
    match v {
        SourceValue::Null => ValueNode::Null(NullValueNode {}),
        SourceValue::Enum(s) => ValueNode::Enum(EnumValueNode { value: s.clone() }),
        SourceValue::Variable(s) => ValueNode::Variable(VariableNode { name: convert_name(s) }),
        SourceValue::Str(s) => ValueNode::Str(
            StringValueNode { value: s.clone(), block: Option::None },
        ),
        SourceValue::Float(s) => ValueNode::Float(FloatValueNode { value: s.clone() }),
        SourceValue::Int(s) => ValueNode::Int(IntValueNode { value: s.clone() }),
        SourceValue::Boolean(b) => ValueNode::Boolean(BooleanValueNode { value: *b }),
        SourceValue::List(vs) => {
            let mut values: Vec<ValueNode> = Vec::new();
            let mut i: usize = 0;
            while i < vs.len()
                invariant
                    i <= vs.len(),
                    *v is List,
                    *vs == (*v)->List_0,
                    values@.len() == i as int,
                    forall|j: int|
                        0 <= j < i as int ==> crate::nodes::value_view(#[trigger] values@[j])
                            == mirror_value(crate::source::source_value_view(vs@[j])),
                decreases vs@.len() - i as int,
            {
                let c = convert_value(&vs[i]);
                values.push(c);
                i = i + 1;
            }
            let r = ValueNode::List(ListValueNode { values });
            proof {
                assert(r@->values =~= mirror_value(v@)->values);
                assert(r@ =~= mirror_value(v@));
            }
            r
        },
        SourceValue::Object(fs) => {
            let mut fields: Vec<ObjectFieldNode> = Vec::new();
            let mut i: usize = 0;
            while i < fs.len()
                invariant
                    i <= fs.len(),
                    *v is Object,
                    *fs == (*v)->Object_0,
                    fields@.len() == i as int,
                    forall|j: int|
                        0 <= j < i as int ==> (#[trigger] fields@[j]).name.value@ == fs@[j].name@,
                    forall|j: int|
                        0 <= j < i as int ==> crate::nodes::value_view(
                            (#[trigger] fields@[j]).value,
                        ) == mirror_value(crate::source::source_value_view(fs@[j].value)),
                decreases fs@.len() - i as int,
            {
                let sf = &fs[i];
                let name = convert_name(&sf.name);
                let val = convert_value(&sf.value);
                fields.push(ObjectFieldNode { name, value: val });
                i = i + 1;
            }
            let r = ValueNode::Object(ObjectValueNode { fields });
            proof {
                assert(r@->fields =~= mirror_value(v@)->fields);
                assert(r@ =~= mirror_value(v@));
            }
            r
        },
    }
}

/// Mirror one source type reference, bottom-up.  Total over the closed
/// four-variant union; the result is exactly the mirrored view of the input,
/// and a non-null of a list of the source becomes a non-null node around a
/// list node.
pub fn convert_type(t: &SourceType) -> (r: TypeNode)
    ensures
        r@ == mirror_type(t@),
    decreases *t,
{
    match t {
        SourceType::Named(n) => TypeNode::Named(NamedTypeNode { name: convert_name(n) }),
        SourceType::NonNullNamed(n) => {
            let r = TypeNode::NonNull(
                NonNullTypeNode {
                    ty: NullableTypeNode::Named(NamedTypeNode { name: convert_name(n) }),
                },
            );
            proof {
                assert(crate::nodes::nullable_type_view(r->NonNull_0.ty) == (TypeView::Named {
                    name: n@,
                }));
            }
            r
        },
        SourceType::List(inner) => TypeNode::List(
            ListTypeNode { ty: Box::new(convert_type(&**inner)) },
        ),
        SourceType::NonNullList(inner) => {
            let c = convert_type(&**inner);
            let ghost cv = c@;
            let r = TypeNode::NonNull(
                NonNullTypeNode {
                    ty: NullableTypeNode::List(ListTypeNode { ty: Box::new(c) }),
                },
            );
            proof {
                assert(crate::nodes::nullable_type_view(r->NonNull_0.ty) == (TypeView::List {
                    ty: Box::new(cv),
                }));
            }
            r
        },
    }
}

/// Mirror one argument: its name, and its value via `convert_value`.
pub fn convert_argument(a: &SourceArgument) -> (r: ArgumentNode)
    ensures
        r@ == mirror_argument(a@),
{
    ArgumentNode { name: convert_name(&a.name), value: convert_value(&a.value) }
}

fn convert_arguments(args: &Vec<SourceArgument>) -> (r: Vec<ArgumentNode>)
    ensures
        r@.len() == args@.len(),
        forall|j: int|
            0 <= j < args@.len() ==> crate::nodes::argument_view(#[trigger] r@[j])
                == mirror_argument(crate::source::source_argument_view(args@[j])),
{
    let mut out: Vec<ArgumentNode> = Vec::new();
    let mut i: usize = 0;
    while i < args.len()
        invariant
            i <= args.len(),
            out@.len() == i as int,
            forall|j: int|
                0 <= j < i as int ==> crate::nodes::argument_view(#[trigger] out@[j])
                    == mirror_argument(crate::source::source_argument_view(args@[j])),
        decreases args@.len() - i as int,
    {
        let c = convert_argument(&args[i]);
        out.push(c);
        i = i + 1;
    }
    out
}

/// Mirror one directive: its name, and its arguments in order.
pub fn convert_directive(d: &SourceDirective) -> (r: DirectiveNode)
    ensures
        r@ == mirror_directive(d@),
{
    let r = DirectiveNode { name: convert_name(&d.name), arguments: convert_arguments(&d.arguments) };
    proof {
        assert(r@ =~= mirror_directive(d@));
    }
    r
}

fn convert_directives(ds: &Vec<SourceDirective>) -> (r: Vec<DirectiveNode>)
    ensures
        r@.len() == ds@.len(),
        forall|j: int|
            0 <= j < ds@.len() ==> crate::nodes::directive_view(#[trigger] r@[j])
                == mirror_directive(crate::source::source_directive_view(ds@[j])),
{
    let mut out: Vec<DirectiveNode> = Vec::new();
    let mut i: usize = 0;
    while i < ds.len()
        invariant
            i <= ds.len(),
            out@.len() == i as int,
            forall|j: int|
                0 <= j < i as int ==> crate::nodes::directive_view(#[trigger] out@[j])
                    == mirror_directive(crate::source::source_directive_view(ds@[j])),
        decreases ds@.len() - i as int,
    {
        let c = convert_directive(&ds[i]);
        out.push(c);
        i = i + 1;
    }
    out
}

/// Scanning a selection sequence for unsupported nodes can skip any prefix
/// whose selections are all clean: the first error, if any, lies in the
/// rest.
proof fn lemma_selections_error_split(ss: Seq<SourceSelectionView>, i: int)
    requires
        0 <= i <= ss.len(),
        forall|j: int| 0 <= j < i ==> selection_error(#[trigger] ss[j]) is None,
    ensures
        selections_error(ss) == selections_error(ss.subrange(i, ss.len() as int)),
    decreases i,
{
    if i == 0 {
        assert(ss.subrange(0, ss.len() as int) =~= ss);
    } else {
        let tail = ss.subrange(1, ss.len() as int);
        assert(forall|j: int| 0 <= j < i - 1 ==> selection_error(#[trigger] tail[j]) is None);
        lemma_selections_error_split(tail, i - 1);
        assert(tail.subrange(i - 1, tail.len() as int) =~= ss.subrange(i, ss.len() as int));
    }
}

/// The same prefix-skipping fact for the scan across operations.
proof fn lemma_operations_error_split(ops: Seq<SourceOperationView>, i: int)
    requires
        0 <= i <= ops.len(),
        forall|j: int| 0 <= j < i ==> selections_error((#[trigger] ops[j]).selections) is None,
    ensures
        operations_error(ops) == operations_error(ops.subrange(i, ops.len() as int)),
    decreases i,
{
    if i == 0 {
        assert(ops.subrange(0, ops.len() as int) =~= ops);
    } else {
        let tail = ops.subrange(1, ops.len() as int);
        assert(forall|j: int|
            0 <= j < i - 1 ==> selections_error((#[trigger] tail[j]).selections) is None);
        lemma_operations_error_split(tail, i - 1);
        assert(tail.subrange(i - 1, tail.len() as int) =~= ops.subrange(i, ops.len() as int));
    }
}

/// Mirror one variable definition: the variable's name, its type, its
/// optional default value, and its directives in order.
pub fn convert_variable_definition(v: &SourceVariableDefinition) -> (r: VariableDefinitionNode)
    ensures
        r@ == mirror_variable_definition(v@),
{
    let default_value = match &v.default_value {
        Option::Some(d) => Option::Some(convert_value(d)),
        Option::None => Option::None,
    };
    let r = VariableDefinitionNode {
        variable: VariableNode { name: convert_name(&v.name) },
        ty: convert_type(&v.ty),
        default_value,
        directives: convert_directives(&v.directives),
    };
    proof {
        assert(r@ =~= mirror_variable_definition(v@));
    }
    r
}

fn convert_variable_definitions(vs: &Vec<SourceVariableDefinition>) -> (r: Vec<
    VariableDefinitionNode,
>)
    ensures
        r@.len() == vs@.len(),
        forall|j: int|
            0 <= j < vs@.len() ==> crate::nodes::variable_definition_view(#[trigger] r@[j])
                == mirror_variable_definition(
                crate::source::source_variable_definition_view(vs@[j]),
            ),
{
    let mut out: Vec<VariableDefinitionNode> = Vec::new();
    let mut i: usize = 0;
    while i < vs.len()
        invariant
            i <= vs.len(),
            out@.len() == i as int,
            forall|j: int|
                0 <= j < i as int ==> crate::nodes::variable_definition_view(#[trigger] out@[j])
                    == mirror_variable_definition(
                    crate::source::source_variable_definition_view(vs@[j]),
                ),
        decreases vs@.len() - i as int,
    {
        let c = convert_variable_definition(&vs[i]);
        out.push(c);
        i = i + 1;
    }
    out
}

/// Mirror one field selection.  Succeeds with exactly the mirrored view of
/// the field when its sub-selections hold no unsupported node, and a field
/// with no sub-selections gets no selection set at all; otherwise returns
/// the first unsupported node found, in traversal order.
pub fn convert_field(f: &SourceField) -> (r: Result<FieldNode, ConvertError>)
    ensures
        (match r {
            Result::Ok(out) => selections_error(f@.selections) is None && out@ == mirror_field(
                f@,
            ),
            Result::Err(e) => selections_error(f@.selections) == Option::Some(e@),
        }),
    decreases *f,
{
    let alias = convert_opt_name(&f.alias);
    let name = convert_name(&f.name);
    let arguments = convert_arguments(&f.arguments);
    let directives = convert_directives(&f.directives);
    let selection_set = if f.selections.len() == 0 {
        Option::None
    } else {
        match convert_selection_set(&f.selections) {
            Result::Ok(ss) => Option::Some(ss),
            Result::Err(e) => {
                return Result::Err(e);
            },
        }
    };
    let r = FieldNode { alias, name, arguments, directives, selection_set };
    proof {
        assert(r@.arguments =~= mirror_field(f@).arguments);
        assert(r@.directives =~= mirror_field(f@).directives);
        assert(r@ =~= mirror_field(f@));
    }
    Result::Ok(r)
}

/// Mirror a whole selection set.  Succeeds with every selection mirrored in
/// order when all of them are plain fields all the way down; otherwise
/// returns the first unsupported node, scanning in order.
pub fn convert_selection_set(ss: &Vec<SourceSelection>) -> (r: Result<
    SelectionSetNode,
    ConvertError,
>)
    ensures
        (match r {
            Result::Ok(out) => selections_error(source_selections_view(ss@)) is None && out@
                == mirror_selections(source_selections_view(ss@)),
            Result::Err(e) => selections_error(source_selections_view(ss@)) == Option::Some(e@),
        }),
    decreases ss@,
{
    let ghost sv = source_selections_view(ss@);
    let mut fields: Vec<FieldNode> = Vec::new();
    let mut i: usize = 0;
    while i < ss.len()
        invariant
            i <= ss.len(),
            sv == source_selections_view(ss@),
            fields@.len() == i as int,
            forall|j: int| 0 <= j < i as int ==> selection_error(#[trigger] sv[j]) is None,
            forall|j: int|
                0 <= j < i as int ==> crate::nodes::field_view(#[trigger] fields@[j])
                    == mirror_selection(sv[j]),
        decreases ss@.len() - i as int,
    {
        let sel = &ss[i];
        proof {
            assert(sv[i as int] == crate::source::source_selection_view(ss@[i as int]));
        }
        match sel {
            SourceSelection::Field(fld) => {
                proof {
                    assert(decreases_to!(ss@ => ss@[i as int]));
                    assert(ss@[i as int] is Field && ss@[i as int]->Field_0 == *fld);
                }
                match convert_field(fld) {
                    Result::Ok(fnode) => {
                        fields.push(fnode);
                    },
                    Result::Err(e) => {
                        proof {
                            assert(selection_error(sv[i as int]) == Option::Some(e@));
                            lemma_selections_error_split(sv, i as int);
                            let tail = sv.subrange(i as int, sv.len() as int);
                            assert(tail[0] == sv[i as int]);
                            assert(selections_error(sv) == Option::Some(e@));
                        }
                        return Result::Err(e);
                    },
                }
            },
            SourceSelection::FragmentSpread(fsp) => {
                let e = ConvertError::FragmentSpread { name: fsp.fragment_name.clone() };
                proof {
                    assert(selection_error(sv[i as int]) == Option::Some(e@));
                    lemma_selections_error_split(sv, i as int);
                    let tail = sv.subrange(i as int, sv.len() as int);
                    assert(tail[0] == sv[i as int]);
                    assert(selections_error(sv) == Option::Some(e@));
                }
                return Result::Err(e);
            },
            SourceSelection::InlineFragment(inf) => {
                let e = ConvertError::InlineFragment;
                proof {
                    assert(selection_error(sv[i as int]) == Option::Some(e@));
                    lemma_selections_error_split(sv, i as int);
                    let tail = sv.subrange(i as int, sv.len() as int);
                    assert(tail[0] == sv[i as int]);
                    assert(selections_error(sv) == Option::Some(e@));
                }
                return Result::Err(e);
            },
        }
        i = i + 1;
    }
    proof {
        lemma_selections_error_split(sv, sv.len() as int);
        assert(selections_error(sv.subrange(sv.len() as int, sv.len() as int)) is None);
    }
    let out = SelectionSetNode { selections: fields };
    proof {
        assert(out@ =~= mirror_selections(sv));
    }
    Result::Ok(out)
}

/// Mirror one operation definition.  Succeeds with exactly the mirrored
/// view of the operation — same kind tag, same optional name, directives,
/// variable definitions and selection set in order — unless its selection
/// set holds an unsupported node, which is then returned.
pub fn convert_operation(op: &SourceOperation) -> (r: Result<
    OperationDefinitionNode,
    ConvertError,
>)
    ensures
        (match r {
            Result::Ok(out) => selections_error(op@.selections) is None && out@
                == mirror_operation(op@),
            Result::Err(e) => selections_error(op@.selections) == Option::Some(e@),
        }),
{
    let name = convert_opt_name(&op.name);
    let directives = convert_directives(&op.directives);
    let variable_definitions = convert_variable_definitions(&op.variables);
    let selection_set = match convert_selection_set(&op.selections) {
        Result::Ok(ss) => ss,
        Result::Err(e) => {
            return Result::Err(e);
        },
    };
    let r = OperationDefinitionNode {
        operation: op.operation_type,
        name,
        directives,
        variable_definitions,
        selection_set,
    };
    proof {
        assert(r@.directives =~= mirror_operation(op@).directives);
        assert(r@.variable_definitions =~= mirror_operation(op@).variable_definitions);
        assert(r@ =~= mirror_operation(op@));
    }
    Result::Ok(r)
}

/// Mirror a whole source document.  Succeeds with every operation mirrored
/// in source order exactly when the document holds no fragment definition
/// and no selection other than plain fields; otherwise returns the first
/// unsupported node and produces nothing.
pub fn convert_document(d: &SourceDocument) -> (r: Result<DocumentNode, ConvertError>)
    ensures
        (match r {
            Result::Ok(out) => document_error(d@) is None && out@ == mirror_document(d@),
            Result::Err(e) => document_error(d@) == Option::Some(e@),
        }),
{
    if d.fragments.len() > 0 {
        let e = ConvertError::FragmentDefinition { name: d.fragments[0].clone() };
        proof {
            assert(d@.fragments[0] == d.fragments@[0]@);
        }
        return Result::Err(e);
    }
    let ghost ov = d@.operations;
    let mut definitions: Vec<OperationDefinitionNode> = Vec::new();
    let mut i: usize = 0;
    while i < d.operations.len()
        invariant
            i <= d.operations.len(),
            ov == d@.operations,
            d@.fragments.len() == 0,
            definitions@.len() == i as int,
            forall|j: int|
                0 <= j < i as int ==> selections_error((#[trigger] ov[j]).selections) is None,
            forall|j: int|
                0 <= j < i as int ==> crate::nodes::operation_definition_view(
                    #[trigger] definitions@[j],
                ) == mirror_operation(ov[j]),
        decreases d.operations@.len() - i as int,
    {
        proof {
            assert(ov[i as int] == crate::source::source_operation_view(d.operations@[i as int]));
        }
        match convert_operation(&d.operations[i]) {
            Result::Ok(o) => {
                definitions.push(o);
            },
            Result::Err(e) => {
                proof {
                    assert(selections_error(ov[i as int].selections) == Option::Some(e@));
                    lemma_operations_error_split(ov, i as int);
                    let tail = ov.subrange(i as int, ov.len() as int);
                    assert(tail[0] == ov[i as int]);
                    assert(operations_error(ov) == Option::Some(e@));
                }
                return Result::Err(e);
            },
        }
        i = i + 1;
    }
    proof {
        lemma_operations_error_split(ov, ov.len() as int);
        assert(operations_error(ov.subrange(ov.len() as int, ov.len() as int)) is None);
    }
    let out = DocumentNode { definitions };
    proof {
        assert(out@.definitions =~= mirror_operations(ov));
        assert(out@ =~= mirror_document(d@));
    }
    Result::Ok(out)
}

} // verus!
