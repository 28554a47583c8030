use haven_react::json::{Json, JsonNumber};
use haven_react::schema::{
    placeholder_for_schema_type, repair_tool_input, schema_property_fallback,
    supplement_missing_required_fields, value_conforms_to_prop,
};
use haven_react::types::Action;

fn s(v: &str) -> Json {
    Json::Str(v.to_string())
}

fn obj(fields: Vec<(&str, Json)>) -> Json {
    Json::Object(fields.into_iter().map(|(k, v)| (k.to_string(), v)).collect())
}

fn arr(items: Vec<Json>) -> Json {
    Json::Array(items)
}

fn schema() -> Json {
    obj(vec![
        ("type", s("object")),
        (
            "properties",
            obj(vec![
                ("action", obj(vec![("type", s("string")), ("enum", arr(vec![s("read"), s("write")]))])),
                ("path", obj(vec![("type", s("string"))])),
                ("count", obj(vec![("type", s("integer")), ("default", Json::Number(JsonNumber::PosInt(5)))])),
                ("note", obj(vec![("type", arr(vec![s("string"), s("null")]))])),
            ]),
        ),
        ("required", arr(vec![s("action"), s("path"), s("missing")])),
    ])
}

fn get<'a>(j: &'a Json, key: &str) -> Option<&'a Json> {
    j.get(key)
}

#[test]
fn placeholders_match_the_declared_type() {
    assert!(matches!(placeholder_for_schema_type(Some("string")), Json::Str(t) if t.is_empty()));
    assert!(matches!(placeholder_for_schema_type(Some("number")), Json::Number(JsonNumber::PosInt(0))));
    assert!(matches!(placeholder_for_schema_type(Some("boolean")), Json::Bool(false)));
    assert!(matches!(placeholder_for_schema_type(Some("array")), Json::Array(v) if v.is_empty()));
    assert!(matches!(placeholder_for_schema_type(Some("object")), Json::Object(v) if v.is_empty()));
    assert!(matches!(placeholder_for_schema_type(Some("uuid")), Json::Null));
    assert!(matches!(placeholder_for_schema_type(None), Json::Null));
}

#[test]
fn fallback_prefers_default_then_enum_then_placeholder() {
    let with_default = obj(vec![("type", s("integer")), ("default", Json::Number(JsonNumber::PosInt(5)))]);
    assert!(matches!(schema_property_fallback(&with_default), Json::Number(JsonNumber::PosInt(5))));
    let with_enum = obj(vec![("type", s("string")), ("enum", arr(vec![s("read"), s("write")]))]);
    assert!(matches!(schema_property_fallback(&with_enum), Json::Str(t) if t == "read"));
    let typed = obj(vec![("type", s("boolean"))]);
    assert!(matches!(schema_property_fallback(&typed), Json::Bool(false)));
}

#[test]
fn conformance_checks_enum_and_type() {
    let action = obj(vec![("type", s("string")), ("enum", arr(vec![s("read"), s("write")]))]);
    assert!(value_conforms_to_prop(&action, &s("read")));
    assert!(!value_conforms_to_prop(&action, &s("delete")));
    let integer = obj(vec![("type", s("integer"))]);
    assert!(value_conforms_to_prop(&integer, &Json::Number(JsonNumber::NegInt(-3))));
    assert!(!value_conforms_to_prop(&integer, &Json::Number(JsonNumber::Float("1.5".into()))));
    let nullable = obj(vec![("type", arr(vec![s("string"), s("null")]))]);
    assert!(value_conforms_to_prop(&nullable, &Json::Null));
    assert!(!value_conforms_to_prop(&nullable, &Json::Bool(true)));
    let format = obj(vec![("type", s("date-time"))]);
    assert!(value_conforms_to_prop(&format, &Json::Bool(true)));
}

#[test]
fn invalid_and_missing_fields_are_repaired() {
    let mut input = obj(vec![
        ("action", s("delete")),
        ("count", s("many")),
        ("note", Json::Null),
        ("extra", s("kept")),
    ]);
    assert!(repair_tool_input(&mut input, &schema()));
    assert!(matches!(get(&input, "action"), Some(Json::Str(t)) if t == "read"));
    assert!(matches!(get(&input, "count"), Some(Json::Number(JsonNumber::PosInt(5)))));
    assert!(matches!(get(&input, "path"), Some(Json::Str(t)) if t.is_empty()));
    assert!(matches!(get(&input, "missing"), Some(Json::Null)));
    assert!(matches!(get(&input, "note"), Some(Json::Null)));
    assert!(matches!(get(&input, "extra"), Some(Json::Str(t)) if t == "kept"));
}

#[test]
fn conforming_input_is_left_alone() {
    let sch = obj(vec![
        ("properties", obj(vec![("path", obj(vec![("type", s("string"))]))])),
        ("required", arr(vec![s("path")])),
    ]);
    let mut input = obj(vec![("path", s("a.txt"))]);
    assert!(!repair_tool_input(&mut input, &sch));
    assert!(matches!(get(&input, "path"), Some(Json::Str(t)) if t == "a.txt"));
}

#[test]
fn unparseable_arguments_become_an_object() {
    let mut input = Json::Null;
    assert!(!repair_tool_input(&mut input, &obj(vec![])));
    assert!(matches!(input, Json::Object(ref f) if f.is_empty()));
}

#[test]
fn only_non_final_actions_with_known_tools_are_repaired() {
    let mut actions = vec![
        Action { tool_name: "files".into(), tool_input: Json::Null, is_final: false, tool_call_id: None },
        Action { tool_name: "final_answer".into(), tool_input: Json::Null, is_final: true, tool_call_id: None },
        Action { tool_name: "unknown".into(), tool_input: Json::Null, is_final: false, tool_call_id: None },
    ];
    let schemas = vec![Some(schema()), Some(schema()), None];
    assert_eq!(supplement_missing_required_fields(&mut actions, &schemas), 1);
    assert!(matches!(get(&actions[0].tool_input, "action"), Some(Json::Str(t)) if t == "read"));
    assert!(matches!(actions[1].tool_input, Json::Null));
    assert!(matches!(actions[2].tool_input, Json::Null));
}

#[test]
fn a_repaired_input_needs_no_second_repair_when_fallbacks_settle() {
    let settled = obj(vec![
        ("type", s("object")),
        (
            "properties",
            obj(vec![
                ("action", obj(vec![("type", s("string")), ("enum", arr(vec![s("read"), s("write")]))])),
                ("count", obj(vec![("type", s("integer")), ("default", Json::Number(JsonNumber::PosInt(5)))])),
            ]),
        ),
        ("required", arr(vec![s("action"), s("count")])),
    ]);
    let mut input = obj(vec![("action", s("delete")), ("count", Json::Null)]);
    assert!(repair_tool_input(&mut input, &settled));
    assert!(matches!(get(&input, "action"), Some(Json::Str(t)) if t == "read"));
    assert!(matches!(get(&input, "count"), Some(Json::Number(JsonNumber::PosInt(5)))));
    assert!(!repair_tool_input(&mut input, &settled));
}

#[test]
fn an_undeclared_required_field_is_filled_with_null_on_every_repair() {
    let mut input = obj(vec![("action", s("read")), ("path", s("a.txt"))]);
    assert!(repair_tool_input(&mut input, &schema()));
    assert!(matches!(get(&input, "missing"), Some(Json::Null)));
    assert!(repair_tool_input(&mut input, &schema()));
}
