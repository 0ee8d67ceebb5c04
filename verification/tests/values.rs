//! One test per variant of the closed value and type unions: each minimal
//! source node mirrors to a node of the matching kind carrying the same
//! scalar payload.

use rustberry::convert::convert_type;
use rustberry::convert::convert_value;
use rustberry::nodes::NullableTypeNode;
use rustberry::nodes::TypeNode;
use rustberry::nodes::ValueNode;
use rustberry::source::SourceObjectField;
use rustberry::source::SourceType;
use rustberry::source::SourceValue;

#[test]
fn null_value_mirrors() {
    let m = convert_value(&SourceValue::Null);
    assert_eq!(m.kind(), "null_value");
    assert!(matches!(m, ValueNode::Null(_)));
}

#[test]
fn enum_value_mirrors() {
    let m = convert_value(&SourceValue::Enum("RED".to_string()));
    assert_eq!(m.kind(), "enum_value");
    match m {
        ValueNode::Enum(n) => assert_eq!(n.value, "RED"),
        _ => panic!("wrong variant"),
    }
}

#[test]
fn variable_value_mirrors() {
    let m = convert_value(&SourceValue::Variable("id".to_string()));
    assert_eq!(m.kind(), "variable");
    match m {
        ValueNode::Variable(n) => assert_eq!(n.name.value, "id"),
        _ => panic!("wrong variant"),
    }
}

#[test]
fn string_value_mirrors() {
    let m = convert_value(&SourceValue::Str("hello".to_string()));
    assert_eq!(m.kind(), "string_value");
    match m {
        ValueNode::Str(n) => {
            assert_eq!(n.value, "hello");
            assert_eq!(n.block, None);
        }
        _ => panic!("wrong variant"),
    }
}

#[test]
fn float_value_keeps_original_text() {
    let m = convert_value(&SourceValue::Float("3.140".to_string()));
    assert_eq!(m.kind(), "float_value");
    match m {
        ValueNode::Float(n) => assert_eq!(n.value, "3.140"),
        _ => panic!("wrong variant"),
    }
}

#[test]
fn int_value_keeps_original_text() {
    let m = convert_value(&SourceValue::Int("42".to_string()));
    assert_eq!(m.kind(), "int_value");
    match m {
        ValueNode::Int(n) => assert_eq!(n.value, "42"),
        _ => panic!("wrong variant"),
    }
}

#[test]
fn huge_int_value_is_not_parsed() {
    let digits = "123456789012345678901234567890123456789";
    let m = convert_value(&SourceValue::Int(digits.to_string()));
    match m {
        ValueNode::Int(n) => assert_eq!(n.value, digits),
        _ => panic!("wrong variant"),
    }
}

#[test]
fn boolean_value_mirrors() {
    let m = convert_value(&SourceValue::Boolean(true));
    assert_eq!(m.kind(), "boolean_value");
    match m {
        ValueNode::Boolean(n) => assert!(n.value),
        _ => panic!("wrong variant"),
    }
}

#[test]
fn list_value_preserves_element_order() {
    let src = SourceValue::List(vec![
        SourceValue::Int("1".to_string()),
        SourceValue::Int("2".to_string()),
        SourceValue::Int("3".to_string()),
    ]);
    let m = convert_value(&src);
    assert_eq!(m.kind(), "list_value");
    match m {
        ValueNode::List(n) => {
            assert_eq!(n.values.len(), 3);
            for (i, expected) in ["1", "2", "3"].iter().enumerate() {
                match &n.values[i] {
                    ValueNode::Int(v) => assert_eq!(&v.value, expected),
                    _ => panic!("wrong element variant"),
                }
            }
        }
        _ => panic!("wrong variant"),
    }
}

#[test]
fn object_value_preserves_field_order() {
    let src = SourceValue::Object(vec![
        SourceObjectField {
            name: "b".to_string(),
            value: SourceValue::Int("2".to_string()),
        },
        SourceObjectField {
            name: "a".to_string(),
            value: SourceValue::Int("1".to_string()),
        },
    ]);
    let m = convert_value(&src);
    assert_eq!(m.kind(), "object_value");
    match m {
        ValueNode::Object(n) => {
            assert_eq!(n.fields.len(), 2);
            assert_eq!(n.fields[0].name.value, "b");
            assert_eq!(n.fields[1].name.value, "a");
            assert_eq!(n.fields[0].kind(), "object_field");
            match &n.fields[0].value {
                ValueNode::Int(v) => assert_eq!(v.value, "2"),
                _ => panic!("wrong field value"),
            }
        }
        _ => panic!("wrong variant"),
    }
}

#[test]
fn nested_values_mirror_recursively() {
    let src = SourceValue::List(vec![SourceValue::Object(vec![SourceObjectField {
        name: "inner".to_string(),
        value: SourceValue::List(vec![SourceValue::Boolean(false)]),
    }])]);
    let m = convert_value(&src);
    match m {
        ValueNode::List(outer) => match &outer.values[0] {
            ValueNode::Object(obj) => match &obj.fields[0].value {
                ValueNode::List(inner) => match &inner.values[0] {
                    ValueNode::Boolean(b) => assert!(!b.value),
                    _ => panic!("innermost should be boolean"),
                },
                _ => panic!("field value should be a list"),
            },
            _ => panic!("element should be an object"),
        },
        _ => panic!("wrong variant"),
    }
}

#[test]
fn named_type_mirrors() {
    let m = convert_type(&SourceType::Named("ID".to_string()));
    assert_eq!(m.kind(), "named_type");
    match m {
        TypeNode::Named(n) => assert_eq!(n.name.value, "ID"),
        _ => panic!("wrong variant"),
    }
}

#[test]
fn nonnull_named_type_mirrors() {
    let m = convert_type(&SourceType::NonNullNamed("ID".to_string()));
    assert_eq!(m.kind(), "non_null_type");
    match m {
        TypeNode::NonNull(n) => match n.ty {
            NullableTypeNode::Named(inner) => assert_eq!(inner.name.value, "ID"),
            _ => panic!("non-null should wrap the named type"),
        },
        _ => panic!("wrong variant"),
    }
}

#[test]
fn list_type_mirrors() {
    let m = convert_type(&SourceType::List(Box::new(SourceType::Named(
        "Foo".to_string(),
    ))));
    assert_eq!(m.kind(), "list_type");
    match m {
        TypeNode::List(l) => match *l.ty {
            TypeNode::Named(n) => assert_eq!(n.name.value, "Foo"),
            _ => panic!("list should wrap the named type"),
        },
        _ => panic!("wrong variant"),
    }
}

#[test]
fn nonnull_list_of_nonnull_named_builds_three_level_tree() {
    // [Foo!]! — the tagged tree must read NonNull → List → NonNull → Named,
    // with no non-null directly inside a non-null anywhere.
    let src = SourceType::NonNullList(Box::new(SourceType::NonNullNamed("Foo".to_string())));
    let m = convert_type(&src);
    match m {
        TypeNode::NonNull(outer) => match outer.ty {
            NullableTypeNode::List(list) => match *list.ty {
                TypeNode::NonNull(inner) => match inner.ty {
                    NullableTypeNode::Named(named) => {
                        assert_eq!(named.name.value, "Foo");
                        assert_eq!(named.kind(), "named_type");
                    }
                    _ => panic!("inner non-null should wrap the named type"),
                },
                _ => panic!("list element should be non-null"),
            },
            _ => panic!("outer non-null should wrap a list"),
        },
        _ => panic!("outermost should be non-null"),
    }
}
