use cynic_codegen::FieldDef;
use cynic_codegen::ObjectTypeDef;
use cynic_codegen::QueryDslParams;
use cynic_codegen::SchemaDefinition;
use cynic_codegen::TypeRef;
use cynic_codegen::data_from_schema;
use cynic_codegen::field_type_and_scalar_call;

fn named(name: &str) -> TypeRef {
    TypeRef::Named(name.to_string())
}

#[test]
fn builtin_scalars_resolve_with_selectors() {
    let (ty, call) = field_type_and_scalar_call(&named("String"));
    assert_eq!(ty, "String");
    assert_eq!(call.as_deref(), Some("string()"));

    let (ty, call) = field_type_and_scalar_call(&named("Int"));
    assert_eq!(ty, "i64");
    assert_eq!(call.as_deref(), Some("integer()"));

    let (ty, call) = field_type_and_scalar_call(&named("Float"));
    assert_eq!(ty, "f64");
    assert_eq!(call.as_deref(), Some("float()"));

    let (ty, call) = field_type_and_scalar_call(&named("Boolean"));
    assert_eq!(ty, "bool");
    assert_eq!(call.as_deref(), Some("boolean()"));
}

#[test]
fn unknown_names_resolve_as_object_references() {
    let (ty, call) = field_type_and_scalar_call(&named("MyCustomType"));
    assert_eq!(ty, "MyCustomType");
    assert!(call.is_none());
}

#[test]
fn id_scalar_falls_through_to_object_reference() {
    // The built-in table holds exactly four names; an ID-like scalar is not
    // among them and resolves without a selector.
    let (ty, call) = field_type_and_scalar_call(&named("ID"));
    assert_eq!(ty, "ID");
    assert!(call.is_none());
}

#[test]
fn case_sensitive_exact_match_only() {
    let (ty, call) = field_type_and_scalar_call(&named("string"));
    assert_eq!(ty, "string");
    assert!(call.is_none());
    let (ty, call) = field_type_and_scalar_call(&named("INT"));
    assert_eq!(ty, "INT");
    assert!(call.is_none());
}

#[test]
fn nonnull_wraps_in_option_and_optional_adapter() {
    let t = TypeRef::NonNull(Box::new(named("Int")));
    let (ty, call) = field_type_and_scalar_call(&t);
    assert_eq!(ty, "Option<i64>");
    assert_eq!(call.as_deref(), Some("::cynic::selection_set::option(integer())"));
}

#[test]
fn list_wraps_in_vec_and_sequence_adapter() {
    let t = TypeRef::List(Box::new(named("String")));
    let (ty, call) = field_type_and_scalar_call(&t);
    assert_eq!(ty, "Vec<String>");
    assert_eq!(call.as_deref(), Some("::cynic::selection_set::vec(string())"));
}

#[test]
fn wrapper_composition_two_levels() {
    let t = TypeRef::NonNull(Box::new(TypeRef::List(Box::new(named("Int")))));
    let (ty, call) = field_type_and_scalar_call(&t);
    assert_eq!(ty, "Option<Vec<i64>>");
    assert_eq!(
        call.as_deref(),
        Some("::cynic::selection_set::option(::cynic::selection_set::vec(integer()))")
    );
}

#[test]
fn wrapper_composition_three_levels() {
    // Wrapping order matches nesting order: the outermost wrapper is applied
    // last in the type expression and first in the call chain.
    let t = TypeRef::NonNull(Box::new(TypeRef::List(Box::new(TypeRef::NonNull(Box::new(named(
        "Int",
    )))))));
    let (ty, call) = field_type_and_scalar_call(&t);
    assert_eq!(ty, "Option<Vec<Option<i64>>>");
    assert_eq!(
        call.as_deref(),
        Some(
            "::cynic::selection_set::option(::cynic::selection_set::vec(::cynic::selection_set::option(integer())))"
        )
    );
}

#[test]
fn wrapped_object_reference_keeps_no_selector() {
    let t = TypeRef::NonNull(Box::new(TypeRef::List(Box::new(named("Author")))));
    let (ty, call) = field_type_and_scalar_call(&t);
    assert_eq!(ty, "Option<Vec<Author>>");
    assert!(call.is_none());
}

fn object_def(name: &str, field_names: &[&str]) -> SchemaDefinition {
    SchemaDefinition::Object(ObjectTypeDef {
        name: name.to_string(),
        fields: field_names
            .iter()
            .map(|f| FieldDef { name: f.to_string(), field_type: named("String") })
            .collect(),
    })
}

#[test]
fn index_keeps_only_object_definitions() {
    let defs = vec![SchemaDefinition::Other, object_def("Post", &["title"]), SchemaDefinition::Other];
    let data = data_from_schema(defs);
    assert_eq!(data.types.len(), 1);
    assert_eq!(data.types[0].name, "Post");
}

#[test]
fn index_preserves_first_occurrence_order() {
    let defs = vec![object_def("Post", &["title"]), object_def("Author", &["name"])];
    let data = data_from_schema(defs);
    assert_eq!(data.types.len(), 2);
    assert_eq!(data.types[0].name, "Post");
    assert_eq!(data.types[1].name, "Author");
}

#[test]
fn duplicate_names_keep_the_later_definition() {
    let defs = vec![
        object_def("Post", &["oldField"]),
        object_def("Author", &["name"]),
        object_def("Post", &["newField"]),
    ];
    let data = data_from_schema(defs);
    assert_eq!(data.types.len(), 2);
    assert_eq!(data.types[0].name, "Post");
    assert_eq!(data.types[0].fields.len(), 1);
    assert_eq!(data.types[0].fields[0].name, "newField");
    assert_eq!(data.types[1].name, "Author");
}

#[test]
fn query_dsl_params_keep_the_filename() {
    let params = QueryDslParams::new("schema.graphql".to_string());
    assert_eq!(params.schema_filename, "schema.graphql");
}
