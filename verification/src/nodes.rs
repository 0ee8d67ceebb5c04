//! The target grammar: the closed set of mirrored AST node shapes, one per
//! node kind of the reference GraphQL language AST, together with the `kind`
//! discriminant each node reports to generic tree-walking consumers.
//!
//! Every node is an immutable value; the converter builds children first and
//! never touches a node again once its parent owns it.  Optional and empty
//! are kept distinct throughout: a field with no sub-selections carries no
//! selection set at all, never an empty one.
//!
//! Each node type has a mathematical view (`@`), a ghost datatype over `Seq`
//! and `Option`, which the conversion contracts are stated over.

use vstd::prelude::*;

verus! {

broadcast use vstd::std_specs::vec::group_vec_axioms;

/// The closed three-way operation-kind tag.
#[derive(Clone, Copy, PartialEq, Eq, Structural, Debug)]
pub enum OperationType {
    Query,
    Mutation,
    Subscription,
}

impl OperationType {
    /// The lowercase tag under which consumers of the mirrored tree know
    /// this operation kind.
    pub fn as_str(&self) -> (r: &'static str)
        ensures
            *self is Query ==> r@ == "query"@,
            *self is Mutation ==> r@ == "mutation"@,
            *self is Subscription ==> r@ == "subscription"@,
    {
        match self {
            OperationType::Query => "query",
            OperationType::Mutation => "mutation",
            OperationType::Subscription => "subscription",
        }
    }
}

/// A bare identifier node.
pub struct NameNode {
    pub value: String,
}

/// The mirrored document: its operation definitions, in source order.
pub struct DocumentNode {
    pub definitions: Vec<OperationDefinitionNode>,
}

/// A mirrored operation definition.
pub struct OperationDefinitionNode {
    pub operation: OperationType,
    pub name: Option<NameNode>,
    pub directives: Vec<DirectiveNode>,
    pub variable_definitions: Vec<VariableDefinitionNode>,
    pub selection_set: SelectionSetNode,
}

/// A mirrored selection set; only field selections are representable.
pub struct SelectionSetNode {
    pub selections: Vec<FieldNode>,
}

/// A mirrored field selection.  `selection_set` is present exactly when the
/// field has one or more sub-selections.
pub struct FieldNode {
    pub alias: Option<NameNode>,
    pub name: NameNode,
    pub arguments: Vec<ArgumentNode>,
    pub directives: Vec<DirectiveNode>,
    pub selection_set: Option<SelectionSetNode>,
}

/// A mirrored argument.
pub struct ArgumentNode {
    pub name: NameNode,
    pub value: ValueNode,
}

/// A mirrored directive application.
pub struct DirectiveNode {
    pub name: NameNode,
    pub arguments: Vec<ArgumentNode>,
}

/// A mirrored variable definition.
pub struct VariableDefinitionNode {
    pub variable: VariableNode,
    pub ty: TypeNode,
    pub default_value: Option<ValueNode>,
    pub directives: Vec<DirectiveNode>,
}

/// The closed type-reference union of the mirrored grammar.
pub enum TypeNode {
    Named(NamedTypeNode),
    List(ListTypeNode),
    NonNull(NonNullTypeNode),
}

/// A named type reference.
pub struct NamedTypeNode {
    pub name: NameNode,
}

/// A list type reference.
pub struct ListTypeNode {
    pub ty: Box<TypeNode>,
}

/// A non-null type reference.  Its payload is a `NullableTypeNode`, so a
/// non-null wrapping another non-null is not representable.
pub struct NonNullTypeNode {
    pub ty: NullableTypeNode,
}

/// What a non-null type may wrap: a named type or a list type.
pub enum NullableTypeNode {
    Named(NamedTypeNode),
    List(ListTypeNode),
}

/// The closed value union of the mirrored grammar.
pub enum ValueNode {
    Variable(VariableNode),
    Null(NullValueNode),
    Enum(EnumValueNode),
    Str(StringValueNode),
    Float(FloatValueNode),
    Int(IntValueNode),
    Boolean(BooleanValueNode),
    List(ListValueNode),
    Object(ObjectValueNode),
}

/// A variable reference value.
pub struct VariableNode {
    pub name: NameNode,
}

/// The null value.
pub struct NullValueNode {}

/// An enum value, carried as its spelled-out name.
pub struct EnumValueNode {
    pub value: String,
}

/// A string value; `block` records whether it was written in triple-quoted
/// form, where the source grammar knows.
pub struct StringValueNode {
    pub value: String,
    pub block: Option<bool>,
}

/// A float value, carried as its original text.
pub struct FloatValueNode {
    pub value: String,
}

/// An integer value, carried as its original text.
pub struct IntValueNode {
    pub value: String,
}

/// A boolean value.
pub struct BooleanValueNode {
    pub value: bool,
}

/// A list value.
pub struct ListValueNode {
    pub values: Vec<ValueNode>,
}

/// An object value: its fields, in declaration order.
pub struct ObjectValueNode {
    pub fields: Vec<ObjectFieldNode>,
}

/// One field of an object value.
pub struct ObjectFieldNode {
    pub name: NameNode,
    pub value: ValueNode,
}

impl NameNode {
    /// The discriminant under which generic consumers know this node.
    pub fn kind(&self) -> (r: &'static str)
        ensures
            r@ == "name"@,
    {
        "name"
    }
}

impl DocumentNode {
    /// The discriminant under which generic consumers know this node.
    pub fn kind(&self) -> (r: &'static str)
        ensures
            r@ == "document"@,
    {
        "document"
    }
}

impl OperationDefinitionNode {
    /// The discriminant under which generic consumers know this node.
    pub fn kind(&self) -> (r: &'static str)
        ensures
            r@ == "operation_definition"@,
    {
        "operation_definition"
    }
}

impl SelectionSetNode {
    /// The discriminant under which generic consumers know this node.
    pub fn kind(&self) -> (r: &'static str)
        ensures
            r@ == "selection_set"@,
    {
        "selection_set"
    }
}

impl FieldNode {
    /// The discriminant under which generic consumers know this node.
    pub fn kind(&self) -> (r: &'static str)
        ensures
            r@ == "field"@,
    {
        "field"
    }
}

impl ArgumentNode {
    /// The discriminant under which generic consumers know this node.
    pub fn kind(&self) -> (r: &'static str)
        ensures
            r@ == "argument"@,
    {
        "argument"
    }
}

impl DirectiveNode {
    /// The discriminant under which generic consumers know this node.
    pub fn kind(&self) -> (r: &'static str)
        ensures
            r@ == "directive"@,
    {
        "directive"
    }
}

impl VariableDefinitionNode {
    /// The discriminant under which generic consumers know this node.
    pub fn kind(&self) -> (r: &'static str)
        ensures
            r@ == "variable_definition"@,
    {
        "variable_definition"
    }
}

impl NamedTypeNode {
    /// The discriminant under which generic consumers know this node.
    pub fn kind(&self) -> (r: &'static str)
        ensures
            r@ == "named_type"@,
    {
        "named_type"
    }
}

impl ListTypeNode {
    /// The discriminant under which generic consumers know this node.
    pub fn kind(&self) -> (r: &'static str)
        ensures
            r@ == "list_type"@,
    {
        "list_type"
    }
}

impl NonNullTypeNode {
    /// The discriminant under which generic consumers know this node.
    pub fn kind(&self) -> (r: &'static str)
        ensures
            r@ == "non_null_type"@,
    {
        "non_null_type"
    }
}

impl TypeNode {
    /// The discriminant of the concrete type node this value holds.
    pub fn kind(&self) -> (r: &'static str)
        ensures
            *self is Named ==> r@ == "named_type"@,
            *self is List ==> r@ == "list_type"@,
            *self is NonNull ==> r@ == "non_null_type"@,
    {
        match self {
            TypeNode::Named(n) => n.kind(),
            TypeNode::List(n) => n.kind(),
            TypeNode::NonNull(n) => n.kind(),
        }
    }
}

impl VariableNode {
    /// The discriminant under which generic consumers know this node.
    pub fn kind(&self) -> (r: &'static str)
        ensures
            r@ == "variable"@,
    {
        "variable"
    }
}

impl NullValueNode {
    /// The discriminant under which generic consumers know this node.
    pub fn kind(&self) -> (r: &'static str)
        ensures
            r@ == "null_value"@,
    {
        "null_value"
    }
}

impl EnumValueNode {
    /// The discriminant under which generic consumers know this node.
    pub fn kind(&self) -> (r: &'static str)
        ensures
            r@ == "enum_value"@,
    {
        "enum_value"
    }
}

impl StringValueNode {
    /// The discriminant under which generic consumers know this node.
    pub fn kind(&self) -> (r: &'static str)
        ensures
            r@ == "string_value"@,
    {
        "string_value"
    }
}

impl FloatValueNode {
    /// The discriminant under which generic consumers know this node.
    pub fn kind(&self) -> (r: &'static str)
        ensures
            r@ == "float_value"@,
    {
        "float_value"
    }
}

impl IntValueNode {
    /// The discriminant under which generic consumers know this node.
    pub fn kind(&self) -> (r: &'static str)
        ensures
            r@ == "int_value"@,
    {
        "int_value"
    }
}

impl BooleanValueNode {
    /// The discriminant under which generic consumers know this node.
    pub fn kind(&self) -> (r: &'static str)
        ensures
            r@ == "boolean_value"@,
    {
        "boolean_value"
    }
}

impl ListValueNode {
    /// The discriminant under which generic consumers know this node.
    pub fn kind(&self) -> (r: &'static str)
        ensures
            r@ == "list_value"@,
    {
        "list_value"
    }
}

impl ObjectValueNode {
    /// The discriminant under which generic consumers know this node.
    pub fn kind(&self) -> (r: &'static str)
        ensures
            r@ == "object_value"@,
    {
        "object_value"
    }
}

impl ObjectFieldNode {
    /// The discriminant under which generic consumers know this node.
    pub fn kind(&self) -> (r: &'static str)
        ensures
            r@ == "object_field"@,
    {
        "object_field"
    }
}

impl ValueNode {
    /// The discriminant of the concrete value node this value holds.
    pub fn kind(&self) -> (r: &'static str)
        ensures
            *self is Variable ==> r@ == "variable"@,
            *self is Null ==> r@ == "null_value"@,
            *self is Enum ==> r@ == "enum_value"@,
            *self is Str ==> r@ == "string_value"@,
            *self is Float ==> r@ == "float_value"@,
            *self is Int ==> r@ == "int_value"@,
            *self is Boolean ==> r@ == "boolean_value"@,
            *self is List ==> r@ == "list_value"@,
            *self is Object ==> r@ == "object_value"@,
    {
        match self {
            ValueNode::Variable(n) => n.kind(),
            ValueNode::Null(n) => n.kind(),
            ValueNode::Enum(n) => n.kind(),
            ValueNode::Str(n) => n.kind(),
            ValueNode::Float(n) => n.kind(),
            ValueNode::Int(n) => n.kind(),
            ValueNode::Boolean(n) => n.kind(),
            ValueNode::List(n) => n.kind(),
            ValueNode::Object(n) => n.kind(),
        }
    }
}

/// View of `DocumentNode`.
#[verifier::ext_equal]
pub struct DocumentView {
    pub definitions: Seq<OperationDefinitionView>,
}

/// View of `OperationDefinitionNode`.
#[verifier::ext_equal]
pub struct OperationDefinitionView {
    pub operation: OperationType,
    pub name: Option<Seq<char>>,
    pub directives: Seq<DirectiveView>,
    pub variable_definitions: Seq<VariableDefinitionView>,
    pub selections: Seq<FieldView>,
}

/// View of `FieldNode`.  A selection set is viewed as the sequence of its
/// field views; absence stays `None`.
#[verifier::ext_equal]
pub struct FieldView {
    pub alias: Option<Seq<char>>,
    pub name: Seq<char>,
    pub arguments: Seq<ArgumentView>,
    pub directives: Seq<DirectiveView>,
    pub selection_set: Option<Seq<FieldView>>,
}

/// View of `ArgumentNode`.
#[verifier::ext_equal]
pub struct ArgumentView {
    pub name: Seq<char>,
    pub value: ValueView,
}

/// View of `DirectiveNode`.
#[verifier::ext_equal]
pub struct DirectiveView {
    pub name: Seq<char>,
    pub arguments: Seq<ArgumentView>,
}

/// View of `VariableDefinitionNode`.
#[verifier::ext_equal]
pub struct VariableDefinitionView {
    pub variable: Seq<char>,
    pub ty: TypeView,
    pub default_value: Option<ValueView>,
    pub directives: Seq<DirectiveView>,
}

/// View of `TypeNode`.  The non-null payload is a whole `TypeView`; that it
/// is never another non-null is stated by `type_view_wf` and holds of the
/// view of every `TypeNode`.
#[verifier::ext_equal]
pub enum TypeView {
    Named { name: Seq<char> },
    List { ty: Box<TypeView> },
    NonNull { ty: Box<TypeView> },
}

/// View of `ValueNode`.
#[verifier::ext_equal]
pub enum ValueView {
    Variable { name: Seq<char> },
    Null,
    Enum { value: Seq<char> },
    Str { value: Seq<char>, block: Option<bool> },
    Float { value: Seq<char> },
    Int { value: Seq<char> },
    Boolean { value: bool },
    List { values: Seq<ValueView> },
    Object { fields: Seq<ObjectFieldView> },
}

/// View of `ObjectFieldNode`.
#[verifier::ext_equal]
pub struct ObjectFieldView {
    pub name: Seq<char>,
    pub value: ValueView,
}

/// A type view is well formed when no non-null wraps another non-null.
pub open spec fn type_view_wf(t: TypeView) -> bool
    decreases t,
{
    match t {
        TypeView::Named { name } => true,
        TypeView::List { ty } => type_view_wf(*ty),
        TypeView::NonNull { ty } => !(*ty is NonNull) && type_view_wf(*ty),
    }
}

pub open spec fn opt_name_view(o: Option<NameNode>) -> Option<Seq<char>> {
    match o {
        Option::Some(n) => Option::Some(n.value@),
        Option::None => Option::None,
    }
}

pub open spec fn value_view(v: ValueNode) -> ValueView
    decreases v,
{
    match v {
        ValueNode::Variable(n) => ValueView::Variable { name: n.name.value@ },
        ValueNode::Null(n) => ValueView::Null,
        ValueNode::Enum(n) => ValueView::Enum { value: n.value@ },
        ValueNode::Str(n) => ValueView::Str { value: n.value@, block: n.block },
        ValueNode::Float(n) => ValueView::Float { value: n.value@ },
        ValueNode::Int(n) => ValueView::Int { value: n.value@ },
        ValueNode::Boolean(n) => ValueView::Boolean { value: n.value },
        ValueNode::List(n) => ValueView::List {
            values: Seq::new(
                n.values@.len(),
                |i: int| if 0 <= i < n.values@.len() {
                    value_view(n.values@[i])
                } else {
                    arbitrary()
                },
            ),
        },
        ValueNode::Object(n) => ValueView::Object {
            fields: Seq::new(
                n.fields@.len(),
                |i: int| if 0 <= i < n.fields@.len() {
                    ObjectFieldView {
                        name: n.fields@[i].name.value@,
                        value: value_view(n.fields@[i].value),
                    }
                } else {
                    arbitrary()
                },
            ),
        },
    }
}

pub open spec fn type_view(t: TypeNode) -> TypeView
    decreases t,
{
    match t {
        TypeNode::Named(n) => TypeView::Named { name: n.name.value@ },
        TypeNode::List(l) => TypeView::List { ty: Box::new(type_view(*l.ty)) },
        TypeNode::NonNull(n) => TypeView::NonNull { ty: Box::new(nullable_type_view(n.ty)) },
    }
}

pub open spec fn nullable_type_view(t: NullableTypeNode) -> TypeView
    decreases t,
{
    match t {
        NullableTypeNode::Named(n) => TypeView::Named { name: n.name.value@ },
        NullableTypeNode::List(l) => TypeView::List { ty: Box::new(type_view(*l.ty)) },
    }
}

pub open spec fn argument_view(a: ArgumentNode) -> ArgumentView {
    ArgumentView { name: a.name.value@, value: value_view(a.value) }
}

pub open spec fn directive_view(d: DirectiveNode) -> DirectiveView {
    DirectiveView {
        name: d.name.value@,
        arguments: Seq::new(d.arguments@.len(), |i: int| argument_view(d.arguments@[i])),
    }
}

pub open spec fn variable_definition_view(v: VariableDefinitionNode) -> VariableDefinitionView {
    VariableDefinitionView {
        variable: v.variable.name.value@,
        ty: type_view(v.ty),
        default_value: match v.default_value {
            Option::Some(d) => Option::Some(value_view(d)),
            Option::None => Option::None,
        },
        directives: Seq::new(v.directives@.len(), |i: int| directive_view(v.directives@[i])),
    }
}

pub open spec fn field_view(f: FieldNode) -> FieldView
    decreases f,
{
    FieldView {
        alias: opt_name_view(f.alias),
        name: f.name.value@,
        arguments: Seq::new(f.arguments@.len(), |i: int| argument_view(f.arguments@[i])),
        directives: Seq::new(f.directives@.len(), |i: int| directive_view(f.directives@[i])),
        selection_set: match f.selection_set {
            Option::Some(ss) => Option::Some(selection_set_view(ss)),
            Option::None => Option::None,
        },
    }
}

pub open spec fn selection_set_view(ss: SelectionSetNode) -> Seq<FieldView>
    decreases ss,
{
    Seq::new(
        ss.selections@.len(),
        |i: int| if 0 <= i < ss.selections@.len() {
            field_view(ss.selections@[i])
        } else {
            arbitrary()
        },
    )
}

pub open spec fn operation_definition_view(op: OperationDefinitionNode)
    -> OperationDefinitionView {
    OperationDefinitionView {
        operation: op.operation,
        name: opt_name_view(op.name),
        directives: Seq::new(op.directives@.len(), |i: int| directive_view(op.directives@[i])),
        variable_definitions: Seq::new(
            op.variable_definitions@.len(),
            |i: int| variable_definition_view(op.variable_definitions@[i]),
        ),
        selections: selection_set_view(op.selection_set),
    }
}

pub open spec fn document_view(d: DocumentNode) -> DocumentView {
    DocumentView {
        definitions: Seq::new(
            d.definitions@.len(),
            |i: int| operation_definition_view(d.definitions@[i]),
        ),
    }
}

impl View for DocumentNode {
    type V = DocumentView;

    open spec fn view(&self) -> DocumentView {
        document_view(*self)
    }
}

impl View for OperationDefinitionNode {
    type V = OperationDefinitionView;

    open spec fn view(&self) -> OperationDefinitionView {
        operation_definition_view(*self)
    }
}

impl View for SelectionSetNode {
    type V = Seq<FieldView>;

    open spec fn view(&self) -> Seq<FieldView> {
        selection_set_view(*self)
    }
}

impl View for FieldNode {
    type V = FieldView;

    open spec fn view(&self) -> FieldView {
        field_view(*self)
    }
}

impl View for ArgumentNode {
    type V = ArgumentView;

    open spec fn view(&self) -> ArgumentView {
        argument_view(*self)
    }
}

impl View for DirectiveNode {
    type V = DirectiveView;

    open spec fn view(&self) -> DirectiveView {
        directive_view(*self)
    }
}

impl View for VariableDefinitionNode {
    type V = VariableDefinitionView;

    open spec fn view(&self) -> VariableDefinitionView {
        variable_definition_view(*self)
    }
}

impl View for TypeNode {
    type V = TypeView;

    open spec fn view(&self) -> TypeView {
        type_view(*self)
    }
}

impl View for ValueNode {
    type V = ValueView;

    open spec fn view(&self) -> ValueView {
        value_view(*self)
    }
}

} // verus!
