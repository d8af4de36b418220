use openapi_insert::document::{Document, Method, RegistrationOutcome};
use openapi_insert::json::{JsonMember, JsonValue};
use openapi_insert::schema::{Schema, SchemaRef};

#[test]
fn register_twice_keeps_first_schema() {
    let mut doc = Document::new();
    let r1 = doc.register("Foo".to_string(), Schema::Integer);
    assert_eq!(r1, RegistrationOutcome::Inserted);
    let r2 = doc.register("Foo".to_string(), Schema::Str);
    assert_eq!(r2, RegistrationOutcome::AlreadyExists);
    assert_eq!(doc.components.len(), 1);
    assert_eq!(doc.components[0].name, "Foo");
    assert_eq!(doc.components[0].schema, Schema::Integer);
}

#[test]
fn insert_schema_round_trip() {
    let mut doc = Document::new();
    let body = JsonValue::Object(vec![JsonMember {
        key: "a".to_string(),
        value: JsonValue::Number { integral: true },
    }]);
    let warnings = doc.insert_schema("Foo".to_string(), &body);
    assert!(warnings.is_empty());
    assert_eq!(doc.schemas.len(), 1);
    assert_eq!(doc.schemas[0].name, "Foo");
    match &doc.schemas[0].schema {
        Schema::Object { properties, required } => {
            assert_eq!(properties.len(), 1);
            assert_eq!(properties[0].name, "a");
            assert_eq!(
                properties[0].schema,
                SchemaRef::Inline(Box::new(Schema::Integer))
            );
            assert_eq!(required, &vec!["a".to_string()]);
        }
        other => panic!("expected an object schema, got {:?}", other),
    }
}

#[test]
fn insert_schema_overwrites_top_level_entry() {
    let mut doc = Document::new();
    doc.insert_schema("Foo".to_string(), &JsonValue::Bool);
    doc.insert_schema("Foo".to_string(), &JsonValue::Str);
    assert_eq!(doc.schemas.len(), 1);
    assert_eq!(doc.schemas[0].schema, Schema::Str);
}

#[test]
fn insert_schema_reports_inner_collision_and_keeps_first() {
    let mut doc = Document::new();
    let array_of = |key: &str| {
        JsonValue::Array(vec![JsonValue::Object(vec![JsonMember {
            key: key.to_string(),
            value: JsonValue::Number { integral: true },
        }])])
    };
    let body = JsonValue::Object(vec![
        JsonMember { key: "xs".to_string(), value: array_of("a") },
        JsonMember { key: "ys".to_string(), value: array_of("b") },
    ]);
    let warnings = doc.insert_schema("Holder".to_string(), &body);
    assert_eq!(warnings, vec!["Inner".to_string()]);
    let names: Vec<&str> = doc.components.iter().map(|c| c.name.as_str()).collect();
    assert_eq!(names, vec!["Xs", "Inner", "Ys"]);
    let inner = &doc.components[1];
    match &inner.schema {
        Schema::Object { properties, .. } => {
            assert_eq!(properties.len(), 1);
            assert_eq!(properties[0].name, "a");
        }
        other => panic!("expected an object schema, got {:?}", other),
    }
}

#[test]
fn insert_operation_post_widgets() {
    let mut doc = Document::new();
    let request = JsonValue::Object(vec![JsonMember {
        key: "name".to_string(),
        value: JsonValue::Str,
    }]);
    let response = JsonValue::Object(vec![
        JsonMember { key: "id".to_string(), value: JsonValue::Number { integral: true } },
        JsonMember { key: "name".to_string(), value: JsonValue::Str },
    ]);
    let warnings = doc.insert_operation(
        "/widgets".to_string(),
        Method::Post,
        Some("createWidget".to_string()),
        Vec::new(),
        Some(&request),
        &response,
    );
    assert!(warnings.is_empty());
    assert_eq!(doc.paths.len(), 1);
    assert_eq!(doc.paths[0].url, "/widgets");
    let item = &doc.paths[0].item;
    assert!(item.get.is_none());
    assert!(item.put.is_none());
    assert!(item.delete.is_none());
    let op = item.post.as_ref().expect("a post operation");
    assert_eq!(op.operation_id.as_deref(), Some("createWidget"));
    match op.request_body.as_ref().expect("a request body schema") {
        Schema::Object { properties, required } => {
            assert_eq!(properties.len(), 1);
            assert_eq!(properties[0].name, "name");
            assert_eq!(properties[0].schema, SchemaRef::Inline(Box::new(Schema::Str)));
            assert_eq!(required, &vec!["name".to_string()]);
        }
        other => panic!("expected an object schema, got {:?}", other),
    }
    match op.response_success.as_ref().expect("a response schema") {
        Schema::Object { properties, required } => {
            assert_eq!(properties.len(), 2);
            assert_eq!(properties[0].name, "id");
            assert_eq!(
                properties[0].schema,
                SchemaRef::Inline(Box::new(Schema::Integer))
            );
            assert_eq!(properties[1].name, "name");
            assert_eq!(properties[1].schema, SchemaRef::Inline(Box::new(Schema::Str)));
            assert_eq!(required, &vec!["id".to_string(), "name".to_string()]);
        }
        other => panic!("expected an object schema, got {:?}", other),
    }
}

#[test]
fn insert_operation_twice_mutates_existing_slot() {
    let mut doc = Document::new();
    let first_response = JsonValue::Object(vec![JsonMember {
        key: "a".to_string(),
        value: JsonValue::Bool,
    }]);
    doc.insert_operation(
        "/widgets".to_string(),
        Method::Get,
        Some("listWidgets".to_string()),
        Vec::new(),
        None,
        &first_response,
    );
    let second_response = JsonValue::Object(vec![JsonMember {
        key: "id".to_string(),
        value: JsonValue::Number { integral: true },
    }]);
    doc.insert_operation(
        "/widgets".to_string(),
        Method::Get,
        None,
        Vec::new(),
        None,
        &second_response,
    );
    assert_eq!(doc.paths.len(), 1);
    assert_eq!(doc.paths[0].url, "/widgets");
    let op = doc.paths[0].item.get.as_ref().expect("a get operation");
    assert_eq!(op.operation_id.as_deref(), Some("listWidgets"));
    match op.response_success.as_ref().expect("a response schema") {
        Schema::Object { properties, .. } => {
            assert_eq!(properties.len(), 1);
            assert_eq!(properties[0].name, "id");
        }
        other => panic!("expected an object schema, got {:?}", other),
    }
}

#[test]
fn insert_operation_different_methods_share_path_entry() {
    let mut doc = Document::new();
    let response = JsonValue::Null;
    doc.insert_operation(
        "/widgets".to_string(),
        Method::Get,
        None,
        Vec::new(),
        None,
        &response,
    );
    let request = JsonValue::Object(vec![JsonMember {
        key: "name".to_string(),
        value: JsonValue::Str,
    }]);
    doc.insert_operation(
        "/widgets".to_string(),
        Method::Put,
        None,
        Vec::new(),
        Some(&request),
        &response,
    );
    assert_eq!(doc.paths.len(), 1);
    assert!(doc.paths[0].item.get.is_some());
    assert!(doc.paths[0].item.put.is_some());
}

#[test]
fn insert_operation_reports_collisions_across_bodies() {
    let mut doc = Document::new();
    let body_with = |key: &str| {
        JsonValue::Object(vec![JsonMember {
            key: "item".to_string(),
            value: JsonValue::Object(vec![JsonMember {
                key: key.to_string(),
                value: JsonValue::Number { integral: true },
            }]),
        }])
    };
    let request = body_with("a");
    let response = body_with("b");
    let warnings = doc.insert_operation(
        "/things".to_string(),
        Method::Post,
        None,
        Vec::new(),
        Some(&request),
        &response,
    );
    assert_eq!(warnings, vec!["Item".to_string()]);
    assert_eq!(doc.components.len(), 1);
    assert_eq!(doc.components[0].name, "Item");
    match &doc.components[0].schema {
        Schema::Object { properties, .. } => {
            assert_eq!(properties[0].name, "a");
        }
        other => panic!("expected an object schema, got {:?}", other),
    }
}
