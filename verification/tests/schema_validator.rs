//! Structural schema validation and payload validation.

use ventrix::schema_validator::is_valid_property_def;
use ventrix::schema_validator::parse_schema_property;
use ventrix::schema_validator::payload_is_valid;
use ventrix::schema_validator::set_payload;
use ventrix::schema_validator::JsonValue;
use ventrix::schema_validator::SchemaProperty;

fn text(s: &str) -> JsonValue {
    JsonValue::Text(String::from(s))
}

fn object(fields: Vec<(&str, JsonValue)>) -> JsonValue {
    let mut out: Vec<(String, JsonValue)> = Vec::new();
    for (key, value) in fields {
        out.push((String::from(key), value));
    }
    JsonValue::Object(out)
}

fn string_array(items: Vec<&str>) -> JsonValue {
    let mut out: Vec<JsonValue> = Vec::new();
    for item in items {
        out.push(text(item));
    }
    JsonValue::Array(out)
}

#[test]
pub fn should_validate_valid_definition() {
    let payload_definition = object(vec![
        ("type", text("object")),
        (
            "properties",
            object(vec![
                ("name", object(vec![("type", text("string"))])),
                ("age", object(vec![("type", text("number"))])),
            ]),
        ),
        ("required", string_array(vec![])),
    ]);

    is_valid_property_def(&payload_definition).unwrap();
}

#[test]
#[should_panic]
pub fn should_invalidate_invalid_definition() {
    let payload_definition = object(vec![
        ("type", text("object")),
        (
            "properties",
            object(vec![
                ("name", text("this is invalid")),
                ("age", object(vec![("type", text("number"))])),
            ]),
        ),
        ("required", string_array(vec![])),
    ]);

    is_valid_property_def(&payload_definition).unwrap();
}

#[test]
pub fn should_create_schema_from_value_types() {
    let schema_def = "{\"type\":\"object\",\"properties\":{\"name\":{\"type\":\"string\"}},\"required\":[]}";
    let payload_str = "{\"name\":\"John Rustsworth\"}";

    assert!(payload_is_valid(payload_str, schema_def));
}

#[test]
pub fn passes_instance_with_valid_schema() {
    let payload: String = String::from(
        "
    {
        \"Address\": {
            \"Street\":\"Downing Street 10\",
            \"City\":\"London\",
            \"Country\":\"Great Britain\"
        }
    }
    ",
    );
    let schema = String::from(
        "
    {
        \"type\": \"object\",
        \"properties\": {
            \"Address\": {
                \"type\": \"object\",
                \"properties\": {
                    \"Country\": {
                        \"type\": \"string\"
                    },
                    \"Street\": {
                        \"type\": \"string\"
                    }
                },
                \"required\": [\"Country\", \"Street\"]
            }
        },
        \"required\": [\"Address\"]
    }",
    );

    assert!(payload_is_valid(&payload, &schema));
}

#[test]
pub fn failes_instance_with_invalid_schema() {
    let payload: String = String::from(
        "
    {
        \"RandomPoint\": {
            \"Age\":\"69\",
            \"Object\": {
                \"This is an object\": 42
                },
            \"Bool\": false
        }
    }
    ",
    );
    let schema = String::from(
        "
    {
        \"type\": \"object\",
        \"properties\": {
            \"Address\": {
                \"type\": \"object\",
                \"properties\": {
                    \"Country\": {
                        \"type\": \"string\"
                    },
                    \"Street\": {
                        \"type\": \"string\"
                    }
                },
                \"required\": [\"Country\", \"Street\"]
            }
        },
        \"required\": [\"Address\"]
    }",
    );

    assert!(!payload_is_valid(&payload, &schema));
}

#[test]
fn schema_property_names_are_read_case_insensitively() {
    assert!(matches!(parse_schema_property("STRING"), Some(SchemaProperty::Text)));
    assert!(matches!(parse_schema_property("Number"), Some(SchemaProperty::Number)));
    assert!(matches!(parse_schema_property("object"), Some(SchemaProperty::Object)));
    assert!(parse_schema_property("boolean").is_none());
}

#[test]
fn root_must_declare_type_object() {
    let missing_type = object(vec![("properties", object(vec![])), ("required", string_array(vec![]))]);
    assert!(is_valid_property_def(&missing_type).is_err());

    let wrong_type = object(vec![
        ("type", text("string")),
        ("properties", object(vec![])),
        ("required", string_array(vec![])),
    ]);
    assert!(is_valid_property_def(&wrong_type).is_err());
}

#[test]
fn nested_object_property_needs_properties_and_required() {
    let no_required = object(vec![
        ("type", text("object")),
        (
            "properties",
            object(vec![(
                "address",
                object(vec![
                    ("type", text("object")),
                    ("properties", object(vec![("street", object(vec![("type", text("string"))]))])),
                ]),
            )]),
        ),
    ]);
    assert!(is_valid_property_def(&no_required).is_err());

    let with_required = object(vec![
        ("type", text("object")),
        (
            "properties",
            object(vec![(
                "address",
                object(vec![
                    ("type", text("object")),
                    ("properties", object(vec![("street", object(vec![("type", text("string"))]))])),
                    ("required", string_array(vec!["street"])),
                ]),
            )]),
        ),
    ]);
    assert!(is_valid_property_def(&with_required).is_ok());
}

#[test]
fn payload_rejected_when_required_field_missing() {
    let schema = "{\"type\":\"object\",\"properties\":{\"name\":{\"type\":\"string\"}},\"required\":[\"name\"]}";
    assert!(!payload_is_valid("{\"age\":42}", schema));
    assert!(payload_is_valid("{\"name\":\"Ada\"}", schema));
}

#[test]
fn unparseable_payload_or_schema_is_invalid() {
    let schema = "{\"type\":\"object\",\"properties\":{},\"required\":[]}";
    assert!(!payload_is_valid("not json", schema));
    assert!(!payload_is_valid("{}", "not json"));
}

#[test]
fn validation_flag_gates_the_structural_check() {
    let invalid = object(vec![("properties", text("not an object"))]);
    assert!(set_payload(false, invalid).is_ok());
    let invalid_again = object(vec![("properties", text("not an object"))]);
    assert!(set_payload(true, invalid_again).is_err());
}
