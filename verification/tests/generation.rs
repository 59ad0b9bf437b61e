use json_sample::{
    codegen_from_text, codegen_from_value, generate_type_from_value, snake_case, type_case,
    CodeGenError, JsonValue, Options, SampleSource,
};

fn obj(fields: Vec<(&str, JsonValue)>) -> JsonValue {
    JsonValue::Object(fields.into_iter().map(|(k, v)| (k.to_string(), v)).collect())
}

fn num() -> JsonValue {
    JsonValue::Number { integral: true }
}

fn text(s: &str) -> JsonValue {
    JsonValue::Str(s.to_string())
}

#[test]
fn user_record_from_object() {
    let v = obj(vec![("id", num()), ("name", text("a"))]);
    let out = codegen_from_value("User", &v, &Options::default()).unwrap();
    assert_eq!(
        out,
        "#[derive(Debug, Clone, Serialize, Deserialize)]\nstruct User {\n    id: Integer,\n    name: String,\n}\n"
    );
}

#[test]
fn homogeneous_object_array_unifies() {
    let out = codegen_from_text("Users", "[{\"id\":1},{\"id\":2}]").unwrap();
    assert_eq!(
        out,
        "#[derive(Debug, Clone, Serialize, Deserialize)]\nstruct Users {\n    id: Integer,\n}\n"
    );
    let v = JsonValue::Array(vec![obj(vec![("id", num())]), obj(vec![("id", num())])]);
    let (ty, defs) = generate_type_from_value(&Options::default(), "Users", &v);
    assert_eq!(ty.render(), "Collection<Users>");
    assert_eq!(defs.unwrap().len(), 1);
}

#[test]
fn heterogeneous_array_falls_back() {
    let v = JsonValue::Array(vec![num(), text("two")]);
    let (ty, defs) = generate_type_from_value(&Options::default(), "Pair", &v);
    assert_eq!(ty.render(), "Collection<UntypedJson>");
    assert!(defs.is_none());
    let r = codegen_from_value("Pair", &v, &Options::default());
    assert!(matches!(r, Err(CodeGenError::ExistingType(n)) if n == "Pair"));
}

#[test]
fn heterogeneous_array_discards_object_definitions() {
    let v = JsonValue::Array(vec![obj(vec![("a", num())]), num()]);
    let (ty, defs) = generate_type_from_value(&Options::default(), "Mixed", &v);
    assert_eq!(ty.render(), "Collection<UntypedJson>");
    assert!(defs.is_none());
}

#[test]
fn primitive_root_fails_with_existing_type() {
    let r = codegen_from_text("Answer", "42");
    assert!(matches!(r, Err(CodeGenError::ExistingType(n)) if n == "Answer"));
}

#[test]
fn primitive_roots_all_fail() {
    for sample in ["null", "true", "\"hello\"", "1.5"] {
        let r = codegen_from_text("Prim", sample);
        assert!(matches!(r, Err(CodeGenError::ExistingType(n)) if n == "Prim"));
    }
}

#[test]
fn empty_object_gives_empty_record() {
    let out = codegen_from_text("Empty", "{}").unwrap();
    assert_eq!(
        out,
        "#[derive(Debug, Clone, Serialize, Deserialize)]\nstruct Empty {\n}\n"
    );
}

#[test]
fn empty_array_is_untyped_collection() {
    let v = JsonValue::Array(vec![]);
    let (ty, defs) = generate_type_from_value(&Options::default(), "List", &v);
    assert_eq!(ty.render(), "Collection<UntypedJson>");
    assert!(defs.is_none());
    let r = codegen_from_value("List", &v, &Options::default());
    assert!(matches!(r, Err(CodeGenError::ExistingType(n)) if n == "List"));
}

#[test]
fn generation_is_deterministic() {
    let sample = "{\"id\": 1, \"tags\": [\"a\", \"b\"], \"inner\": {\"x\": null}}";
    let first = codegen_from_text("Thing", sample).unwrap();
    let second = codegen_from_text("Thing", sample).unwrap();
    assert_eq!(first, second);
}

#[test]
fn field_order_follows_insertion_order() {
    let out = codegen_from_text("Pair", "{\"b\": 1, \"a\": 2}").unwrap();
    assert_eq!(
        out,
        "#[derive(Debug, Clone, Serialize, Deserialize)]\nstruct Pair {\n    b: Integer,\n    a: Integer,\n}\n"
    );
}

#[test]
fn numeric_classification_through_parser() {
    let out = codegen_from_text("Nums", "{\"i\": 1, \"n\": -5, \"f\": 1.5, \"e\": 2e10}").unwrap();
    assert_eq!(
        out,
        "#[derive(Debug, Clone, Serialize, Deserialize)]\nstruct Nums {\n    i: Integer,\n    n: Integer,\n    f: Float,\n    e: Float,\n}\n"
    );
}

#[test]
fn primitive_field_types() {
    let v = obj(vec![
        ("n", JsonValue::Null),
        ("b", JsonValue::Bool(true)),
        ("f", JsonValue::Number { integral: false }),
        ("s", text("x")),
    ]);
    let out = codegen_from_value("Prims", &v, &Options::default()).unwrap();
    assert_eq!(
        out,
        "#[derive(Debug, Clone, Serialize, Deserialize)]\nstruct Prims {\n    n: NullableJson,\n    b: Boolean,\n    f: Float,\n    s: String,\n}\n"
    );
}

#[test]
fn nested_object_emits_two_records() {
    let out = codegen_from_text("Outer", "{\"a\": {\"b\": 1}}").unwrap();
    assert_eq!(
        out,
        "#[derive(Debug, Clone, Serialize, Deserialize)]\nstruct Outer {\n    a: A,\n}\n\n#[derive(Debug, Clone, Serialize, Deserialize)]\nstruct A {\n    b: Integer,\n}\n"
    );
}

#[test]
fn homogeneous_array_keeps_first_definition_only() {
    let out = codegen_from_text("Items", "[{\"a\": 1}, {\"a\": \"x\"}]").unwrap();
    assert_eq!(
        out,
        "#[derive(Debug, Clone, Serialize, Deserialize)]\nstruct Items {\n    a: Integer,\n}\n"
    );
}

#[test]
fn integer_array_field_is_typed_collection() {
    let out = codegen_from_text("Holder", "{\"xs\": [1, 2]}").unwrap();
    assert_eq!(
        out,
        "#[derive(Debug, Clone, Serialize, Deserialize)]\nstruct Holder {\n    xs: Collection<Integer>,\n}\n"
    );
}

#[test]
fn serialization_support_can_be_disabled() {
    let v = obj(vec![("id", num())]);
    let opts = Options { emit_serialization_support: false };
    let out = codegen_from_value("Bare", &v, &opts).unwrap();
    assert_eq!(out, "#[derive(Debug, Clone)]\nstruct Bare {\n    id: Integer,\n}\n");
}

#[test]
fn invalid_text_is_a_parse_error() {
    let r = codegen_from_text("Broken", "{not json");
    assert!(matches!(r, Err(CodeGenError::ParseError(_))));
}

#[test]
fn snake_case_conversions() {
    assert_eq!(snake_case("id"), "id");
    assert_eq!(snake_case("userName"), "user_name");
    assert_eq!(snake_case("my-key"), "my_key");
    assert_eq!(snake_case("Top"), "top");
    assert_eq!(snake_case(""), "");
}

#[test]
fn type_case_conversions() {
    assert_eq!(type_case("User"), "User");
    assert_eq!(type_case("users"), "Users");
    assert_eq!(type_case("user_name"), "UserName");
    assert_eq!(type_case("my-key"), "MyKey");
    assert_eq!(type_case(""), "");
}

#[test]
fn camel_case_key_becomes_snake_field() {
    let out = codegen_from_text("Account", "{\"fullName\": \"x\"}").unwrap();
    assert_eq!(
        out,
        "#[derive(Debug, Clone, Serialize, Deserialize)]\nstruct Account {\n    full_name: String,\n}\n"
    );
}

#[test]
fn sample_source_carries_text() {
    let source = SampleSource::Text("{}");
    assert!(matches!(source, SampleSource::Text(t) if t == "{}"));
}
