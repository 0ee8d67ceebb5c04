//! The `kind` discriminants every node reports, and the structural equality
//! helpers.

use rustberry::compare::document_eq;
use rustberry::compare::type_eq;
use rustberry::compare::value_eq;
use rustberry::convert::convert_document;
use rustberry::convert::convert_type;
use rustberry::convert::convert_value;
use rustberry::nodes::ArgumentNode;
use rustberry::nodes::BooleanValueNode;
use rustberry::nodes::DirectiveNode;
use rustberry::nodes::DocumentNode;
use rustberry::nodes::EnumValueNode;
use rustberry::nodes::FieldNode;
use rustberry::nodes::FloatValueNode;
use rustberry::nodes::IntValueNode;
use rustberry::nodes::NameNode;
use rustberry::nodes::NullValueNode;
use rustberry::nodes::OperationDefinitionNode;
use rustberry::nodes::OperationType;
use rustberry::nodes::SelectionSetNode;
use rustberry::nodes::StringValueNode;
use rustberry::nodes::ValueNode;
use rustberry::nodes::VariableDefinitionNode;
use rustberry::nodes::VariableNode;
use rustberry::source::SourceDocument;
use rustberry::source::SourceField;
use rustberry::source::SourceOperation;
use rustberry::source::SourceSelection;
use rustberry::source::SourceType;
use rustberry::source::SourceValue;

fn name(v: &str) -> NameNode {
    NameNode {
        value: v.to_string(),
    }
}

#[test]
fn node_kind_tags() {
    assert_eq!(name("x").kind(), "name");
    assert_eq!(
        DocumentNode {
            definitions: vec![]
        }
        .kind(),
        "document"
    );
    assert_eq!(
        OperationDefinitionNode {
            operation: OperationType::Query,
            name: None,
            directives: vec![],
            variable_definitions: vec![],
            selection_set: SelectionSetNode { selections: vec![] },
        }
        .kind(),
        "operation_definition"
    );
    assert_eq!(
        SelectionSetNode { selections: vec![] }.kind(),
        "selection_set"
    );
    assert_eq!(
        FieldNode {
            alias: None,
            name: name("f"),
            arguments: vec![],
            directives: vec![],
            selection_set: None,
        }
        .kind(),
        "field"
    );
    assert_eq!(
        ArgumentNode {
            name: name("a"),
            value: ValueNode::Null(NullValueNode {}),
        }
        .kind(),
        "argument"
    );
    assert_eq!(
        DirectiveNode {
            name: name("d"),
            arguments: vec![],
        }
        .kind(),
        "directive"
    );
    assert_eq!(
        VariableDefinitionNode {
            variable: VariableNode { name: name("v") },
            ty: convert_type(&SourceType::Named("Int".to_string())),
            default_value: None,
            directives: vec![],
        }
        .kind(),
        "variable_definition"
    );
    assert_eq!(VariableNode { name: name("v") }.kind(), "variable");
    assert_eq!(NullValueNode {}.kind(), "null_value");
    assert_eq!(
        EnumValueNode {
            value: "A".to_string()
        }
        .kind(),
        "enum_value"
    );
    assert_eq!(
        StringValueNode {
            value: "s".to_string(),
            block: None
        }
        .kind(),
        "string_value"
    );
    assert_eq!(
        FloatValueNode {
            value: "1.0".to_string()
        }
        .kind(),
        "float_value"
    );
    assert_eq!(
        IntValueNode {
            value: "1".to_string()
        }
        .kind(),
        "int_value"
    );
    assert_eq!(BooleanValueNode { value: true }.kind(), "boolean_value");
}

#[test]
fn type_kind_tags_follow_variants() {
    assert_eq!(
        convert_type(&SourceType::Named("A".to_string())).kind(),
        "named_type"
    );
    assert_eq!(
        convert_type(&SourceType::List(Box::new(SourceType::Named(
            "A".to_string()
        ))))
        .kind(),
        "list_type"
    );
    assert_eq!(
        convert_type(&SourceType::NonNullNamed("A".to_string())).kind(),
        "non_null_type"
    );
}

#[test]
fn value_kind_tags_follow_variants() {
    assert_eq!(convert_value(&SourceValue::Null).kind(), "null_value");
    assert_eq!(
        convert_value(&SourceValue::List(vec![])).kind(),
        "list_value"
    );
    assert_eq!(
        convert_value(&SourceValue::Object(vec![])).kind(),
        "object_value"
    );
}

#[test]
fn value_eq_distinguishes_payloads_and_order() {
    let a = convert_value(&SourceValue::List(vec![
        SourceValue::Int("1".to_string()),
        SourceValue::Int("2".to_string()),
    ]));
    let b = convert_value(&SourceValue::List(vec![
        SourceValue::Int("2".to_string()),
        SourceValue::Int("1".to_string()),
    ]));
    let c = convert_value(&SourceValue::List(vec![
        SourceValue::Int("1".to_string()),
        SourceValue::Int("2".to_string()),
    ]));
    assert!(value_eq(&a, &c));
    assert!(!value_eq(&a, &b));
    assert!(!value_eq(
        &convert_value(&SourceValue::Int("1".to_string())),
        &convert_value(&SourceValue::Float("1".to_string())),
    ));
}

#[test]
fn type_eq_distinguishes_wrapping() {
    let named = convert_type(&SourceType::Named("A".to_string()));
    let nonnull = convert_type(&SourceType::NonNullNamed("A".to_string()));
    let named_again = convert_type(&SourceType::Named("A".to_string()));
    assert!(type_eq(&named, &named_again));
    assert!(!type_eq(&named, &nonnull));
}

#[test]
fn document_eq_detects_a_renamed_field() {
    let mk = |field: &str| SourceDocument {
        operations: vec![SourceOperation {
            operation_type: OperationType::Query,
            name: None,
            directives: vec![],
            variables: vec![],
            selections: vec![SourceSelection::Field(SourceField {
                alias: None,
                name: field.to_string(),
                arguments: vec![],
                directives: vec![],
                selections: vec![],
            })],
        }],
        fragments: vec![],
    };
    let a = convert_document(&mk("a")).unwrap();
    let b = convert_document(&mk("b")).unwrap();
    let a2 = convert_document(&mk("a")).unwrap();
    assert!(document_eq(&a, &a2));
    assert!(!document_eq(&a, &b));
}
