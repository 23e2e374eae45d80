use modaws::decode::{decode_error, decode_service, decode_shape, DecodeError};
use modaws::text::{transcode, Format, TranscodeError};
use modaws::encode::{encode_operation, encode_service};
use modaws::json::JsonValue;
use modaws::model::{DocPolicy, Documentation, DocumentationUrl, HttpOperation, Operation, Service, Shape};

fn obj(entries: Vec<(&str, JsonValue)>) -> JsonValue {
    JsonValue::Obj(entries.into_iter().map(|(k, v)| (k.to_string(), v)).collect())
}

fn s(v: &str) -> JsonValue {
    JsonValue::Str(v.to_string())
}

fn foo_shape_doc() -> JsonValue {
    obj(vec![(
        "shapes",
        obj(vec![(
            "FooShape",
            obj(vec![("type", s("string")), ("min", JsonValue::Int(1)), ("max", JsonValue::Int(10))]),
        )]),
    )])
}

#[test]
fn decodes_shape_map_scenario() {
    let svc = decode_service(&foo_shape_doc()).unwrap();
    let shapes = svc.shapes.as_ref().unwrap();
    assert_eq!(shapes.len(), 1);
    assert_eq!(shapes[0].0, "FooShape");
    let shape = &shapes[0].1;
    assert_eq!(shape.type_, "string");
    assert_eq!(shape.min, Some(1));
    assert_eq!(shape.max, Some(10));
    assert_eq!(shape.pattern, None);
    assert_eq!(shape.documentation, Documentation { documentation: None });
}

#[test]
fn shape_fields_keep_schema_order_on_encode() {
    let svc = decode_service(&foo_shape_doc()).unwrap();
    let enc = encode_service(&svc, DocPolicy::Include);
    match enc {
        JsonValue::Obj(fields) => {
            assert_eq!(fields.len(), 1);
            assert_eq!(fields[0].0, "shapes");
            match &fields[0].1 {
                JsonValue::Obj(shapes) => match &shapes[0].1 {
                    JsonValue::Obj(sf) => {
                        let names: Vec<&str> = sf.iter().map(|p| p.0.as_str()).collect();
                        assert_eq!(names, vec!["type", "min", "max"]);
                    },
                    _ => panic!("shape is not an object"),
                },
                _ => panic!("shapes is not an object"),
            }
        },
        _ => panic!("service is not an object"),
    }
}

#[test]
fn round_trip_preserves_service() {
    let svc = decode_service(&foo_shape_doc()).unwrap();
    let enc = encode_service(&svc, DocPolicy::Include);
    let back = decode_service(&enc).unwrap();
    assert_eq!(back, svc);
}

#[test]
fn unknown_field_is_rejected_by_name() {
    let doc = obj(vec![("version", s("2.0")), ("bogus", s("x"))]);
    let err = decode_service(&doc).unwrap_err();
    assert_eq!(
        err,
        DecodeError::UnknownField { path: vec![], field: "bogus".to_string() }
    );
}

#[test]
fn shape_without_type_is_missing_field() {
    let doc = obj(vec![("min", JsonValue::Int(1))]);
    let err = decode_shape(&doc).unwrap_err();
    assert_eq!(
        err,
        DecodeError::MissingField { path: vec![], field: "type".to_string() }
    );
}

#[test]
fn error_without_status_code_is_missing_field() {
    let doc = obj(vec![("code", s("Oops"))]);
    let err = decode_error(&doc).unwrap_err();
    assert_eq!(
        err,
        DecodeError::MissingField { path: vec![], field: "httpStatusCode".to_string() }
    );
}

#[test]
fn bad_value_is_reported_with_path() {
    let doc = obj(vec![(
        "shapes",
        obj(vec![("FooShape", obj(vec![("type", JsonValue::Bool(true))]))]),
    )]);
    let err = decode_service(&doc).unwrap_err();
    assert_eq!(
        err,
        DecodeError::BadValue {
            path: vec!["shapes".to_string(), "FooShape".to_string()],
            field: "type".to_string()
        }
    );
}

fn documented_operation() -> Operation {
    Operation {
        name: "GetThing".to_string(),
        alias: None,
        deprecated: None,
        endpointdiscovery: None,
        endpointoperation: None,
        idempotent: None,
        http: Some(HttpOperation {
            method: "GET".to_string(),
            request_uri: "/thing".to_string(),
            response_code: None,
        }),
        input: None,
        output: None,
        errors: None,
        documentation: Documentation { documentation: Some("x".to_string()) },
        documentation_url: DocumentationUrl { documentation_url: Some("y".to_string()) },
    }
}

#[test]
fn stripping_removes_documentation_and_keeps_the_rest() {
    let op = documented_operation();
    let enc = encode_operation(&op, DocPolicy::Strip);
    match enc {
        JsonValue::Obj(fields) => {
            let names: Vec<&str> = fields.iter().map(|p| p.0.as_str()).collect();
            assert_eq!(names, vec!["name", "http"]);
        },
        _ => panic!("operation is not an object"),
    }
}

#[test]
fn including_keeps_documentation_in_order() {
    let op = documented_operation();
    let enc = encode_operation(&op, DocPolicy::Include);
    match enc {
        JsonValue::Obj(fields) => {
            let names: Vec<&str> = fields.iter().map(|p| p.0.as_str()).collect();
            assert_eq!(names, vec!["name", "http", "documentation", "documentationUrl"]);
        },
        _ => panic!("operation is not an object"),
    }
}

#[test]
fn null_counts_as_absent_for_optional_fields() {
    let doc = obj(vec![("version", JsonValue::Null)]);
    let svc = decode_service(&doc).unwrap();
    assert_eq!(svc, Service {
        version: None,
        documentation: Documentation { documentation: None },
        metadata: None,
        operations: None,
        shapes: None,
    });
}

#[test]
fn out_of_range_integer_is_a_bad_value() {
    let doc = obj(vec![("type", s("integer")), ("min", JsonValue::Int(1 << 40))]);
    let err = decode_shape(&doc).unwrap_err();
    assert_eq!(err, DecodeError::BadValue { path: vec![], field: "min".to_string() });
}

#[test]
fn shape_accepts_any_field_combination() {
    let doc = obj(vec![
        ("type", s("map")),
        ("key", obj(vec![("shape", s("K"))])),
        ("pattern", s("^a")),
    ]);
    let shape: Shape = decode_shape(&doc).unwrap();
    assert_eq!(shape.key.as_ref().unwrap().shape, "K");
    assert_eq!(shape.pattern.as_deref(), Some("^a"));
}

#[test]
fn duplicate_map_key_is_rejected() {
    let doc = obj(vec![(
        "shapes",
        JsonValue::Obj(vec![
            ("A".to_string(), obj(vec![("type", s("string"))])),
            ("A".to_string(), obj(vec![("type", s("integer"))])),
        ]),
    )]);
    let err = decode_service(&doc).unwrap_err();
    assert_eq!(
        err,
        DecodeError::DuplicateKey { path: vec!["shapes".to_string()], field: "A".to_string() }
    );
}

const FOO: &str = r#"{"shapes":{"FooShape":{"type":"string","min":1,"max":10}}}"#;

#[test]
fn transcode_pretty_matches_scenario() {
    let out = transcode(FOO, Format::PrettyJson, DocPolicy::Include).unwrap();
    let expected = "{\n  \"shapes\": {\n    \"FooShape\": {\n      \"type\": \"string\",\n      \"min\": 1,\n      \"max\": 10\n    }\n  }\n}";
    assert_eq!(out, expected);
}

fn strip_ws_outside_strings(s: &str) -> String {
    let mut out = String::new();
    let mut in_str = false;
    let mut esc = false;
    for c in s.chars() {
        if in_str {
            out.push(c);
            if esc {
                esc = false;
            } else if c == '\\' {
                esc = true;
            } else if c == '"' {
                in_str = false;
            }
        } else if c == '"' {
            in_str = true;
            out.push(c);
        } else if !c.is_whitespace() {
            out.push(c);
        }
    }
    out
}

#[test]
fn compact_and_pretty_agree_modulo_whitespace() {
    let pretty = transcode(FOO, Format::PrettyJson, DocPolicy::Include).unwrap();
    let compact = transcode(FOO, Format::CompactJson, DocPolicy::Include).unwrap();
    assert_eq!(strip_ws_outside_strings(&pretty), compact);
}

#[test]
fn transcode_is_stable_under_repetition() {
    for fmt in [Format::PrettyJson, Format::CompactJson] {
        let out = transcode(FOO, fmt, DocPolicy::Include).unwrap();
        let again = transcode(&out, fmt, DocPolicy::Include).unwrap();
        assert_eq!(out, again);
    }
}

#[test]
fn yaml_output_carries_the_same_tree() {
    let yaml = transcode(FOO, Format::Yaml, DocPolicy::Include).unwrap();
    let val: serde_json::Value = serde_yaml::from_str(&yaml).unwrap();
    let json = serde_json::to_string(&val).unwrap();
    let a = transcode(&json, Format::CompactJson, DocPolicy::Include).unwrap();
    let b = transcode(FOO, Format::CompactJson, DocPolicy::Include).unwrap();
    assert_eq!(a, b);
}

#[test]
fn strip_documentation_via_transcode() {
    let doc = r#"{"operations":{"GetThing":{"name":"GetThing","documentation":"x","documentationUrl":"y","http":{"method":"GET","requestUri":"/thing"}}}}"#;
    let out = transcode(doc, Format::CompactJson, DocPolicy::Strip).unwrap();
    assert!(!out.contains("documentation"));
    assert!(out.contains("\"name\":\"GetThing\""));
    assert!(out.contains("\"method\":\"GET\""));
}

#[test]
fn malformed_json_is_a_syntax_error() {
    match transcode("{", Format::PrettyJson, DocPolicy::Include) {
        Err(TranscodeError::Syntax(_)) => {},
        r => panic!("expected a syntax error, got {:?}", r),
    }
}

#[test]
fn unknown_field_fails_transcode_with_decode_error() {
    let out = transcode(r#"{"bogus":1}"#, Format::PrettyJson, DocPolicy::Include);
    assert_eq!(
        out,
        Err(TranscodeError::Decode(DecodeError::UnknownField {
            path: vec![],
            field: "bogus".to_string()
        }))
    );
}
