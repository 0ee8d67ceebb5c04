//! The source grammar: the shape of a parsed GraphQL executable document as
//! the converter consumes it.
//!
//! A document arrives here already parsed and (possibly) schema-validated by
//! an upstream engine.  The types below hold, as plain values, exactly what
//! the mirroring logic reads of such a document: operations in order, each
//! with its kind tag, optional name, directives, variable definitions and
//! selection set; selections tagged as field, fragment spread or inline
//! fragment; the closed nine-variant value union; and the closed four-variant
//! type union.  Numeric values are carried as their original text so that no
//! precision is lost in transit.
//!
//! Each executable type has a mathematical view (`@`), a ghost datatype over
//! `Seq` and `Option`, which the converter's contracts are stated over.

use vstd::prelude::*;

use crate::nodes::OperationType;

verus! {

broadcast use vstd::std_specs::vec::group_vec_axioms;

/// A parsed executable document: its operations in declaration order, and
/// the names of any fragment definitions it carries.  Fragments are not
/// lowered by the converter; their names are kept so that a document using
/// them can be refused by name instead of silently losing them.
pub struct SourceDocument {
    pub operations: Vec<SourceOperation>,
    pub fragments: Vec<String>,
}

/// One operation definition of the source document.
pub struct SourceOperation {
    pub operation_type: OperationType,
    pub name: Option<String>,
    pub directives: Vec<SourceDirective>,
    pub variables: Vec<SourceVariableDefinition>,
    pub selections: Vec<SourceSelection>,
}

/// One entry of a selection set: a field, a fragment spread, or an inline
/// fragment.
pub enum SourceSelection {
    Field(SourceField),
    FragmentSpread(SourceFragmentSpread),
    InlineFragment(SourceInlineFragment),
}

/// A field selection: optional alias, declared name, arguments, directives,
/// and its sub-selections (empty for a leaf field).
pub struct SourceField {
    pub alias: Option<String>,
    pub name: String,
    pub arguments: Vec<SourceArgument>,
    pub directives: Vec<SourceDirective>,
    pub selections: Vec<SourceSelection>,
}

/// A named fragment spread inside a selection set.
pub struct SourceFragmentSpread {
    pub fragment_name: String,
}

/// An inline fragment inside a selection set, with its optional type
/// condition.
pub struct SourceInlineFragment {
    pub type_condition: Option<String>,
}

/// A named argument with its value.
pub struct SourceArgument {
    pub name: String,
    pub value: SourceValue,
}

/// A directive application: name plus arguments.
pub struct SourceDirective {
    pub name: String,
    pub arguments: Vec<SourceArgument>,
}

/// One variable definition of an operation: the variable's name, its declared
/// type, an optional default value, and the directives on the definition.
pub struct SourceVariableDefinition {
    pub name: String,
    pub ty: SourceType,
    pub default_value: Option<SourceValue>,
    pub directives: Vec<SourceDirective>,
}

/// One field of an object value.
pub struct SourceObjectField {
    pub name: String,
    pub value: SourceValue,
}

/// The closed value union of the source grammar.  Int and Float carry their
/// original textual representation.
pub enum SourceValue {
    Null,
    Enum(String),
    Variable(String),
    Str(String),
    Float(String),
    Int(String),
    Boolean(bool),
    List(Vec<SourceValue>),
    Object(Vec<SourceObjectField>),
}

/// The closed type-reference union of the source grammar.  Non-null wraps
/// either a named type or a list type; a doubled non-null is not
/// representable.
pub enum SourceType {
    Named(String),
    NonNullNamed(String),
    List(Box<SourceType>),
    NonNullList(Box<SourceType>),
}

/// View of `SourceDocument`.
#[verifier::ext_equal]
pub struct SourceDocumentView {
    pub operations: Seq<SourceOperationView>,
    pub fragments: Seq<Seq<char>>,
}

/// View of `SourceOperation`.
#[verifier::ext_equal]
pub struct SourceOperationView {
    pub operation_type: OperationType,
    pub name: Option<Seq<char>>,
    pub directives: Seq<SourceDirectiveView>,
    pub variables: Seq<SourceVariableDefinitionView>,
    pub selections: Seq<SourceSelectionView>,
}

/// View of `SourceSelection`.
#[verifier::ext_equal]
pub enum SourceSelectionView {
    Field(SourceFieldView),
    FragmentSpread { fragment_name: Seq<char> },
    InlineFragment { type_condition: Option<Seq<char>> },
}

/// View of `SourceField`.
#[verifier::ext_equal]
pub struct SourceFieldView {
    pub alias: Option<Seq<char>>,
    pub name: Seq<char>,
    pub arguments: Seq<SourceArgumentView>,
    pub directives: Seq<SourceDirectiveView>,
    pub selections: Seq<SourceSelectionView>,
}

/// View of `SourceArgument`.
#[verifier::ext_equal]
pub struct SourceArgumentView {
    pub name: Seq<char>,
    pub value: SourceValueView,
}

/// View of `SourceDirective`.
#[verifier::ext_equal]
pub struct SourceDirectiveView {
    pub name: Seq<char>,
    pub arguments: Seq<SourceArgumentView>,
}

/// View of `SourceVariableDefinition`.
#[verifier::ext_equal]
pub struct SourceVariableDefinitionView {
    pub name: Seq<char>,
    pub ty: SourceTypeView,
    pub default_value: Option<SourceValueView>,
    pub directives: Seq<SourceDirectiveView>,
}

/// View of `SourceObjectField`.
#[verifier::ext_equal]
pub struct SourceObjectFieldView {
    pub name: Seq<char>,
    pub value: SourceValueView,
}

/// View of `SourceValue`.
#[verifier::ext_equal]
pub enum SourceValueView {
    Null,
    Enum(Seq<char>),
    Variable(Seq<char>),
    Str(Seq<char>),
    Float(Seq<char>),
    Int(Seq<char>),
    Boolean(bool),
    List(Seq<SourceValueView>),
    Object(Seq<SourceObjectFieldView>),
}

/// View of `SourceType`.
#[verifier::ext_equal]
pub enum SourceTypeView {
    Named(Seq<char>),
    NonNullNamed(Seq<char>),
    List(Box<SourceTypeView>),
    NonNullList(Box<SourceTypeView>),
}

pub open spec fn opt_string_view(o: Option<String>) -> Option<Seq<char>> {
    match o {
        Option::Some(s) => Option::Some(s@),
        Option::None => Option::None,
    }
}

pub open spec fn source_value_view(v: SourceValue) -> SourceValueView
    decreases v,
{
    match v {
        SourceValue::Null => SourceValueView::Null,
        SourceValue::Enum(s) => SourceValueView::Enum(s@),
        SourceValue::Variable(s) => SourceValueView::Variable(s@),
        SourceValue::Str(s) => SourceValueView::Str(s@),
        SourceValue::Float(s) => SourceValueView::Float(s@),
        SourceValue::Int(s) => SourceValueView::Int(s@),
        SourceValue::Boolean(b) => SourceValueView::Boolean(b),
        SourceValue::List(vs) => SourceValueView::List(
            Seq::new(
                vs@.len(),
                |i: int| if 0 <= i < vs@.len() {
                    source_value_view(vs@[i])
                } else {
                    arbitrary()
                },
            ),
        ),
        SourceValue::Object(fs) => SourceValueView::Object(
            Seq::new(
                fs@.len(),
                |i: int| if 0 <= i < fs@.len() {
                    SourceObjectFieldView {
                        name: fs@[i].name@,
                        value: source_value_view(fs@[i].value),
                    }
                } else {
                    arbitrary()
                },
            ),
        ),
    }
}

pub open spec fn source_type_view(t: SourceType) -> SourceTypeView
    decreases t,
{
    match t {
        SourceType::Named(n) => SourceTypeView::Named(n@),
        SourceType::NonNullNamed(n) => SourceTypeView::NonNullNamed(n@),
        SourceType::List(inner) => SourceTypeView::List(Box::new(source_type_view(*inner))),
        SourceType::NonNullList(inner) => SourceTypeView::NonNullList(Box::new(source_type_view(*inner))),
    }
}

pub open spec fn source_argument_view(a: SourceArgument) -> SourceArgumentView {
    SourceArgumentView { name: a.name@, value: source_value_view(a.value) }
}

pub open spec fn source_directive_view(d: SourceDirective) -> SourceDirectiveView {
    SourceDirectiveView {
        name: d.name@,
        arguments: Seq::new(d.arguments@.len(), |i: int| source_argument_view(d.arguments@[i])),
    }
}

pub open spec fn source_variable_definition_view(v: SourceVariableDefinition)
    -> SourceVariableDefinitionView {
    SourceVariableDefinitionView {
        name: v.name@,
        ty: source_type_view(v.ty),
        default_value: match v.default_value {
            Option::Some(d) => Option::Some(source_value_view(d)),
            Option::None => Option::None,
        },
        directives: Seq::new(v.directives@.len(), |i: int| source_directive_view(v.directives@[i])),
    }
}

pub open spec fn source_selections_view(s: Seq<SourceSelection>) -> Seq<SourceSelectionView>
    decreases s,
{
    Seq::new(
        s.len(),
        |i: int| if 0 <= i < s.len() {
            source_selection_view(s[i])
        } else {
            arbitrary()
        },
    )
}

pub open spec fn source_selection_view(s: SourceSelection) -> SourceSelectionView
    decreases s,
{
    match s {
        SourceSelection::Field(f) => SourceSelectionView::Field(source_field_view(f)),
        SourceSelection::FragmentSpread(fs) => (SourceSelectionView::FragmentSpread {
            fragment_name: fs.fragment_name@,
        }),
        SourceSelection::InlineFragment(inf) => (SourceSelectionView::InlineFragment {
            type_condition: opt_string_view(inf.type_condition),
        }),
    }
}

pub open spec fn source_field_view(f: SourceField) -> SourceFieldView
    decreases f,
{
    SourceFieldView {
        alias: opt_string_view(f.alias),
        name: f.name@,
        arguments: Seq::new(f.arguments@.len(), |i: int| source_argument_view(f.arguments@[i])),
        directives: Seq::new(f.directives@.len(), |i: int| source_directive_view(f.directives@[i])),
        selections: source_selections_view(f.selections@),
    }
}

pub open spec fn source_operation_view(op: SourceOperation) -> SourceOperationView {
    SourceOperationView {
        operation_type: op.operation_type,
        name: opt_string_view(op.name),
        directives: Seq::new(op.directives@.len(), |i: int| source_directive_view(op.directives@[i])),
        variables: Seq::new(
            op.variables@.len(),
            |i: int| source_variable_definition_view(op.variables@[i]),
        ),
        selections: source_selections_view(op.selections@),
    }
}

pub open spec fn source_document_view(d: SourceDocument) -> SourceDocumentView {
    SourceDocumentView {
        operations: Seq::new(d.operations@.len(), |i: int| source_operation_view(d.operations@[i])),
        fragments: Seq::new(d.fragments@.len(), |i: int| d.fragments@[i]@),
    }
}

impl View for SourceDocument {
    type V = SourceDocumentView;

    open spec fn view(&self) -> SourceDocumentView {
        source_document_view(*self)
    }
}

impl View for SourceOperation {
    type V = SourceOperationView;

    open spec fn view(&self) -> SourceOperationView {
        source_operation_view(*self)
    }
}

impl View for SourceSelection {
    type V = SourceSelectionView;

    open spec fn view(&self) -> SourceSelectionView {
        source_selection_view(*self)
    }
}

impl View for SourceField {
    type V = SourceFieldView;

    open spec fn view(&self) -> SourceFieldView {
        source_field_view(*self)
    }
}

impl View for SourceArgument {
    type V = SourceArgumentView;

    open spec fn view(&self) -> SourceArgumentView {
        source_argument_view(*self)
    }
}

impl View for SourceDirective {
    type V = SourceDirectiveView;

    open spec fn view(&self) -> SourceDirectiveView {
        source_directive_view(*self)
    }
}

impl View for SourceVariableDefinition {
    type V = SourceVariableDefinitionView;

    open spec fn view(&self) -> SourceVariableDefinitionView {
        source_variable_definition_view(*self)
    }
}

impl View for SourceValue {
    type V = SourceValueView;

    open spec fn view(&self) -> SourceValueView {
        source_value_view(*self)
    }
}

impl View for SourceType {
    type V = SourceTypeView;

    open spec fn view(&self) -> SourceTypeView {
        source_type_view(*self)
    }
}

} // verus!
