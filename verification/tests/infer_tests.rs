use openapi_insert::infer::infer;
use openapi_insert::json::{JsonMember, JsonValue};
use openapi_insert::schema::{is_primitive, Schema, SchemaRef};

#[test]
fn infer_null_gives_empty_object() {
    let r = infer(&JsonValue::Null);
    assert_eq!(r.schema, Schema::Object { properties: vec![], required: vec![] });
    assert!(r.deps.is_empty());
    assert!(is_primitive(&r.schema));
}

#[test]
fn infer_bool_gives_boolean() {
    let r = infer(&JsonValue::Bool);
    assert_eq!(r.schema, Schema::Boolean);
    assert!(r.deps.is_empty());
    assert!(is_primitive(&r.schema));
}

#[test]
fn infer_integral_number_gives_integer() {
    let r = infer(&JsonValue::Number { integral: true });
    assert_eq!(r.schema, Schema::Integer);
    assert!(r.deps.is_empty());
    assert!(is_primitive(&r.schema));
}

#[test]
fn infer_fractional_number_gives_number() {
    let r = infer(&JsonValue::Number { integral: false });
    assert_eq!(r.schema, Schema::Number);
    assert!(r.deps.is_empty());
    assert!(is_primitive(&r.schema));
}

#[test]
fn infer_string_gives_string() {
    let r = infer(&JsonValue::Str);
    assert_eq!(r.schema, Schema::Str);
    assert!(r.deps.is_empty());
    assert!(is_primitive(&r.schema));
}

#[test]
fn infer_empty_array_gives_any_typed_array() {
    let r = infer(&JsonValue::Array(vec![]));
    assert_eq!(r.schema, Schema::Array(None));
    assert!(r.deps.is_empty());
    assert!(is_primitive(&r.schema));
}

#[test]
fn infer_array_uses_first_element_only() {
    let r = infer(&JsonValue::Array(vec![JsonValue::Number { integral: true }, JsonValue::Str]));
    assert_eq!(
        r.schema,
        Schema::Array(Some(SchemaRef::Inline(Box::new(Schema::Integer))))
    );
    assert!(r.deps.is_empty());
}

#[test]
fn infer_array_of_objects_extracts_inner() {
    let element = JsonValue::Object(vec![JsonMember {
        key: "a".to_string(),
        value: JsonValue::Number { integral: true },
    }]);
    let r = infer(&JsonValue::Array(vec![element]));
    assert_eq!(r.schema, Schema::Array(Some(SchemaRef::Named("Inner".to_string()))));
    assert_eq!(r.deps.len(), 1);
    assert_eq!(r.deps[0].name, "Inner");
    match &r.deps[0].schema {
        Schema::Object { properties, required } => {
            assert_eq!(properties.len(), 1);
            assert_eq!(properties[0].name, "a");
            assert_eq!(required, &vec!["a".to_string()]);
        }
        other => panic!("expected an object schema, got {:?}", other),
    }
}

#[test]
fn infer_object_keys_become_required_properties() {
    let body = JsonValue::Object(vec![
        JsonMember { key: "id".to_string(), value: JsonValue::Number { integral: true } },
        JsonMember { key: "name".to_string(), value: JsonValue::Str },
    ]);
    let r = infer(&body);
    match &r.schema {
        Schema::Object { properties, required } => {
            assert_eq!(properties.len(), 2);
            assert_eq!(properties[0].name, "id");
            assert_eq!(properties[1].name, "name");
            assert_eq!(required, &vec!["id".to_string(), "name".to_string()]);
            assert_eq!(
                properties[0].schema,
                SchemaRef::Inline(Box::new(Schema::Integer))
            );
            assert_eq!(properties[1].schema, SchemaRef::Inline(Box::new(Schema::Str)));
        }
        other => panic!("expected an object schema, got {:?}", other),
    }
    assert!(r.deps.is_empty());
    assert!(!is_primitive(&r.schema));
}

#[test]
fn infer_nested_object_extracts_pascal_cased_dependency() {
    let body = JsonValue::Object(vec![JsonMember {
        key: "user_id".to_string(),
        value: JsonValue::Object(vec![JsonMember {
            key: "n".to_string(),
            value: JsonValue::Number { integral: true },
        }]),
    }]);
    let r = infer(&body);
    match &r.schema {
        Schema::Object { properties, .. } => {
            assert_eq!(properties[0].name, "user_id");
            assert_eq!(properties[0].schema, SchemaRef::Named("UserId".to_string()));
        }
        other => panic!("expected an object schema, got {:?}", other),
    }
    assert_eq!(r.deps.len(), 1);
    assert_eq!(r.deps[0].name, "UserId");
}

#[test]
fn infer_deeply_nested_dependency_surfaces() {
    let inner = JsonValue::Object(vec![JsonMember {
        key: "leaf".to_string(),
        value: JsonValue::Object(vec![JsonMember {
            key: "x".to_string(),
            value: JsonValue::Bool,
        }]),
    }]);
    let body = JsonValue::Object(vec![JsonMember { key: "top".to_string(), value: inner }]);
    let r = infer(&body);
    let names: Vec<&str> = r.deps.iter().map(|d| d.name.as_str()).collect();
    assert_eq!(names, vec!["Top", "Leaf"]);
}

#[test]
fn infer_empty_object_property_stays_inline() {
    let body = JsonValue::Object(vec![JsonMember {
        key: "meta".to_string(),
        value: JsonValue::Object(vec![]),
    }]);
    let r = infer(&body);
    match &r.schema {
        Schema::Object { properties, .. } => {
            assert_eq!(
                properties[0].schema,
                SchemaRef::Inline(Box::new(Schema::Object {
                    properties: vec![],
                    required: vec![]
                }))
            );
        }
        other => panic!("expected an object schema, got {:?}", other),
    }
    assert!(r.deps.is_empty());
}
