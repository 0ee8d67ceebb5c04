//! Field, operation and document conversion: order preservation, the
//! optional-versus-empty rule, error propagation, and the end-to-end
//! scenarios.

use rustberry::compare::document_eq;
use rustberry::convert::convert_document;
use rustberry::convert::convert_field;
use rustberry::convert::convert_operation;
use rustberry::convert::convert_selection_set;
use rustberry::convert::ConvertError;
use rustberry::nodes::NullableTypeNode;
use rustberry::nodes::OperationType;
use rustberry::nodes::TypeNode;
use rustberry::nodes::ValueNode;
use rustberry::source::SourceArgument;
use rustberry::source::SourceDirective;
use rustberry::source::SourceDocument;
use rustberry::source::SourceField;
use rustberry::source::SourceFragmentSpread;
use rustberry::source::SourceInlineFragment;
use rustberry::source::SourceOperation;
use rustberry::source::SourceSelection;
use rustberry::source::SourceType;
use rustberry::source::SourceValue;
use rustberry::source::SourceVariableDefinition;

fn leaf(name: &str) -> SourceField {
    SourceField {
        alias: None,
        name: name.to_string(),
        arguments: vec![],
        directives: vec![],
        selections: vec![],
    }
}

fn query_with(selections: Vec<SourceSelection>) -> SourceOperation {
    SourceOperation {
        operation_type: OperationType::Query,
        name: None,
        directives: vec![],
        variables: vec![],
        selections,
    }
}

#[test]
fn leaf_field_has_no_selection_set() {
    let m = convert_field(&leaf("name")).unwrap();
    assert!(m.selection_set.is_none());
    assert_eq!(m.name.value, "name");
    assert!(m.alias.is_none());
}

#[test]
fn empty_explicit_selection_block_is_still_absent() {
    // Zero sub-selections must normalize to "no selection set", never to a
    // present set with zero entries.
    let f = SourceField {
        alias: None,
        name: "pets".to_string(),
        arguments: vec![],
        directives: vec![],
        selections: Vec::new(),
    };
    let m = convert_field(&f).unwrap();
    assert!(m.selection_set.is_none());
}

#[test]
fn field_with_subselections_keeps_their_count() {
    let f = SourceField {
        selections: vec![
            SourceSelection::Field(leaf("a")),
            SourceSelection::Field(leaf("b")),
        ],
        ..leaf("outer")
    };
    let m = convert_field(&f).unwrap();
    let ss = m.selection_set.expect("selection set must be present");
    assert_eq!(ss.selections.len(), 2);
    assert_eq!(ss.selections[0].name.value, "a");
    assert_eq!(ss.selections[1].name.value, "b");
}

#[test]
fn field_alias_is_its_own_name_node() {
    let f = SourceField {
        alias: Some("nick".to_string()),
        ..leaf("name")
    };
    let m = convert_field(&f).unwrap();
    assert_eq!(m.name.value, "name");
    assert_eq!(m.alias.expect("alias must be present").value, "nick");
}

#[test]
fn field_arguments_preserve_order() {
    let f = SourceField {
        arguments: vec![
            SourceArgument {
                name: "second".to_string(),
                value: SourceValue::Int("2".to_string()),
            },
            SourceArgument {
                name: "first".to_string(),
                value: SourceValue::Int("1".to_string()),
            },
        ],
        ..leaf("f")
    };
    let m = convert_field(&f).unwrap();
    assert_eq!(m.arguments.len(), 2);
    assert_eq!(m.arguments[0].name.value, "second");
    assert_eq!(m.arguments[1].name.value, "first");
}

#[test]
fn field_directives_preserve_order() {
    let f = SourceField {
        directives: vec![
            SourceDirective {
                name: "skip".to_string(),
                arguments: vec![],
            },
            SourceDirective {
                name: "include".to_string(),
                arguments: vec![],
            },
        ],
        ..leaf("f")
    };
    let m = convert_field(&f).unwrap();
    assert_eq!(m.directives.len(), 2);
    assert_eq!(m.directives[0].name.value, "skip");
    assert_eq!(m.directives[1].name.value, "include");
}

#[test]
fn directive_arguments_preserve_order_and_values() {
    let f = SourceField {
        directives: vec![SourceDirective {
            name: "include".to_string(),
            arguments: vec![
                SourceArgument {
                    name: "if".to_string(),
                    value: SourceValue::Boolean(true),
                },
                SourceArgument {
                    name: "label".to_string(),
                    value: SourceValue::Str("x".to_string()),
                },
            ],
        }],
        ..leaf("f")
    };
    let m = convert_field(&f).unwrap();
    let d = &m.directives[0];
    assert_eq!(d.name.value, "include");
    assert_eq!(d.arguments.len(), 2);
    assert_eq!(d.arguments[0].name.value, "if");
    match &d.arguments[0].value {
        ValueNode::Boolean(b) => assert!(b.value),
        _ => panic!("first directive argument should be the boolean"),
    }
    assert_eq!(d.arguments[1].name.value, "label");
}

#[test]
fn variable_definition_keeps_its_own_directives() {
    let op = SourceOperation {
        operation_type: OperationType::Query,
        name: None,
        directives: vec![],
        variables: vec![SourceVariableDefinition {
            name: "v".to_string(),
            ty: SourceType::Named("Int".to_string()),
            default_value: None,
            directives: vec![SourceDirective {
                name: "deprecated".to_string(),
                arguments: vec![],
            }],
        }],
        selections: vec![SourceSelection::Field(leaf("f"))],
    };
    let m = convert_operation(&op).unwrap();
    assert!(m.directives.is_empty());
    let vd = &m.variable_definitions[0];
    assert_eq!(vd.directives.len(), 1);
    assert_eq!(vd.directives[0].name.value, "deprecated");
}

#[test]
fn fragment_spread_is_refused_by_name() {
    let sels = vec![SourceSelection::FragmentSpread(SourceFragmentSpread {
        fragment_name: "userFields".to_string(),
    })];
    match convert_selection_set(&sels) {
        Err(ConvertError::FragmentSpread { name }) => assert_eq!(name, "userFields"),
        _ => panic!("a fragment spread must be refused by name"),
    }
}

#[test]
fn inline_fragment_is_refused() {
    let sels = vec![SourceSelection::InlineFragment(SourceInlineFragment {
        type_condition: Some("User".to_string()),
    })];
    match convert_selection_set(&sels) {
        Err(ConvertError::InlineFragment) => {}
        _ => panic!("an inline fragment must be refused"),
    }
}

#[test]
fn nested_fragment_spread_is_refused() {
    let f = SourceField {
        selections: vec![SourceSelection::FragmentSpread(SourceFragmentSpread {
            fragment_name: "inner".to_string(),
        })],
        ..leaf("outer")
    };
    match convert_field(&f) {
        Err(ConvertError::FragmentSpread { name }) => assert_eq!(name, "inner"),
        _ => panic!("a spread nested in a field must be refused"),
    }
}

#[test]
fn first_unsupported_selection_wins() {
    let sels = vec![
        SourceSelection::Field(leaf("ok")),
        SourceSelection::FragmentSpread(SourceFragmentSpread {
            fragment_name: "early".to_string(),
        }),
        SourceSelection::InlineFragment(SourceInlineFragment {
            type_condition: None,
        }),
    ];
    match convert_selection_set(&sels) {
        Err(ConvertError::FragmentSpread { name }) => assert_eq!(name, "early"),
        _ => panic!("the first offending selection must be reported"),
    }
}

#[test]
fn fragment_definition_is_refused_by_name() {
    let doc = SourceDocument {
        operations: vec![query_with(vec![SourceSelection::Field(leaf("a"))])],
        fragments: vec!["userFields".to_string()],
    };
    match convert_document(&doc) {
        Err(ConvertError::FragmentDefinition { name }) => assert_eq!(name, "userFields"),
        _ => panic!("a document with fragment definitions must be refused"),
    }
}

#[test]
fn failing_document_produces_nothing() {
    let doc = SourceDocument {
        operations: vec![
            query_with(vec![SourceSelection::Field(leaf("good"))]),
            query_with(vec![SourceSelection::InlineFragment(
                SourceInlineFragment {
                    type_condition: None,
                },
            )]),
        ],
        fragments: vec![],
    };
    assert!(matches!(
        convert_document(&doc),
        Err(ConvertError::InlineFragment)
    ));
}

#[test]
fn operation_kind_tags() {
    assert_eq!(OperationType::Query.as_str(), "query");
    assert_eq!(OperationType::Mutation.as_str(), "mutation");
    assert_eq!(OperationType::Subscription.as_str(), "subscription");
}

#[test]
fn operation_keeps_kind_name_and_orders() {
    let op = SourceOperation {
        operation_type: OperationType::Mutation,
        name: Some("AddPet".to_string()),
        directives: vec![
            SourceDirective {
                name: "b".to_string(),
                arguments: vec![],
            },
            SourceDirective {
                name: "a".to_string(),
                arguments: vec![],
            },
        ],
        variables: vec![
            SourceVariableDefinition {
                name: "x".to_string(),
                ty: SourceType::Named("Int".to_string()),
                default_value: None,
                directives: vec![],
            },
            SourceVariableDefinition {
                name: "y".to_string(),
                ty: SourceType::Named("Int".to_string()),
                default_value: Some(SourceValue::Int("7".to_string())),
                directives: vec![],
            },
        ],
        selections: vec![SourceSelection::Field(leaf("pet"))],
    };
    let m = convert_operation(&op).unwrap();
    assert_eq!(m.operation, OperationType::Mutation);
    assert_eq!(m.kind(), "operation_definition");
    assert_eq!(m.name.expect("name must be kept").value, "AddPet");
    assert_eq!(m.directives[0].name.value, "b");
    assert_eq!(m.directives[1].name.value, "a");
    assert_eq!(m.variable_definitions.len(), 2);
    assert_eq!(m.variable_definitions[0].variable.name.value, "x");
    assert!(m.variable_definitions[0].default_value.is_none());
    assert_eq!(m.variable_definitions[1].variable.name.value, "y");
    match m.variable_definitions[1]
        .default_value
        .as_ref()
        .expect("default value must be kept")
    {
        ValueNode::Int(n) => assert_eq!(n.value, "7"),
        _ => panic!("default value should be the int"),
    }
}

#[test]
fn document_preserves_operation_order() {
    let mut first = query_with(vec![SourceSelection::Field(leaf("a"))]);
    first.name = Some("First".to_string());
    let mut second = query_with(vec![SourceSelection::Field(leaf("b"))]);
    second.name = Some("Second".to_string());
    let doc = SourceDocument {
        operations: vec![first, second],
        fragments: vec![],
    };
    let m = convert_document(&doc).unwrap();
    assert_eq!(m.kind(), "document");
    assert_eq!(m.definitions.len(), 2);
    assert_eq!(m.definitions[0].name.as_ref().unwrap().value, "First");
    assert_eq!(m.definitions[1].name.as_ref().unwrap().value, "Second");
}

#[test]
fn converting_twice_yields_identical_documents() {
    let doc = SourceDocument {
        operations: vec![SourceOperation {
            operation_type: OperationType::Query,
            name: Some("GetUser".to_string()),
            directives: vec![],
            variables: vec![SourceVariableDefinition {
                name: "id".to_string(),
                ty: SourceType::NonNullNamed("ID".to_string()),
                default_value: None,
                directives: vec![],
            }],
            selections: vec![SourceSelection::Field(SourceField {
                arguments: vec![SourceArgument {
                    name: "id".to_string(),
                    value: SourceValue::Variable("id".to_string()),
                }],
                selections: vec![
                    SourceSelection::Field(leaf("name")),
                    SourceSelection::Field(SourceField {
                        selections: vec![SourceSelection::Field(leaf("name"))],
                        ..leaf("friends")
                    }),
                ],
                ..leaf("user")
            })],
        }],
        fragments: vec![],
    };
    let m1 = convert_document(&doc).unwrap();
    let m2 = convert_document(&doc).unwrap();
    assert!(document_eq(&m1, &m2));
}

#[test]
fn end_to_end_get_user() {
    // query GetUser($id: ID!) { user(id: $id) { name friends { name } } }
    let doc = SourceDocument {
        operations: vec![SourceOperation {
            operation_type: OperationType::Query,
            name: Some("GetUser".to_string()),
            directives: vec![],
            variables: vec![SourceVariableDefinition {
                name: "id".to_string(),
                ty: SourceType::NonNullNamed("ID".to_string()),
                default_value: None,
                directives: vec![],
            }],
            selections: vec![SourceSelection::Field(SourceField {
                arguments: vec![SourceArgument {
                    name: "id".to_string(),
                    value: SourceValue::Variable("id".to_string()),
                }],
                selections: vec![
                    SourceSelection::Field(leaf("name")),
                    SourceSelection::Field(SourceField {
                        selections: vec![SourceSelection::Field(leaf("name"))],
                        ..leaf("friends")
                    }),
                ],
                ..leaf("user")
            })],
        }],
        fragments: vec![],
    };
    let m = convert_document(&doc).unwrap();

    assert_eq!(m.definitions.len(), 1);
    let op = &m.definitions[0];
    assert_eq!(op.operation, OperationType::Query);
    assert_eq!(op.name.as_ref().unwrap().value, "GetUser");

    assert_eq!(op.variable_definitions.len(), 1);
    let vd = &op.variable_definitions[0];
    assert_eq!(vd.variable.name.value, "id");
    assert!(vd.default_value.is_none());
    match &vd.ty {
        TypeNode::NonNull(nn) => match &nn.ty {
            NullableTypeNode::Named(named) => assert_eq!(named.name.value, "ID"),
            _ => panic!("variable type should be non-null of named"),
        },
        _ => panic!("variable type should be non-null"),
    }

    assert_eq!(op.selection_set.selections.len(), 1);
    let user = &op.selection_set.selections[0];
    assert_eq!(user.name.value, "user");
    assert_eq!(user.arguments.len(), 1);
    assert_eq!(user.arguments[0].name.value, "id");
    match &user.arguments[0].value {
        ValueNode::Variable(v) => assert_eq!(v.name.value, "id"),
        _ => panic!("argument should be the variable"),
    }

    let user_sels = user.selection_set.as_ref().expect("user has selections");
    assert_eq!(user_sels.selections.len(), 2);
    let name_field = &user_sels.selections[0];
    assert_eq!(name_field.name.value, "name");
    assert!(name_field.selection_set.is_none());
    let friends = &user_sels.selections[1];
    assert_eq!(friends.name.value, "friends");
    let friends_sels = friends
        .selection_set
        .as_ref()
        .expect("friends has selections");
    assert_eq!(friends_sels.selections.len(), 1);
    assert_eq!(friends_sels.selections[0].name.value, "name");
    assert!(friends_sels.selections[0].selection_set.is_none());
}
