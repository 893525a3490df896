use cynic_codegen::Error;
use cynic_codegen::FieldDef;
use cynic_codegen::ObjectTypeDef;
use cynic_codegen::TypeRef;
use cynic_codegen::dsl_for_object;
use cynic_codegen::query_dsl_from_schema;
use cynic_codegen::select_function_for_field;

const POST_AUTHOR_SCHEMA: &str = "
type Post {
  title: String
  author: Author
}

type Author {
  name: String
}
";

#[test]
fn end_to_end_example() {
    let generated = query_dsl_from_schema(POST_AUTHOR_SCHEMA).unwrap();
    let expected = "pub struct Post;\n\n\
        impl Post {\n    \
        pub fn title() -> ::cynic::selection_set::SelectionSet<'static, String, Post> {\n        \
        use ::cynic::selection_set::{string, integer, float, boolean};\n\n        \
        ::cynic::selection_set::field(\"title\", string())\n    }\n    \
        pub fn author<'a, T>(fields: ::cynic::selection_set::SelectionSet<'a, T, Author>) -> ::cynic::selection_set::SelectionSet<T, Post> where T: 'a {\n        \
        ::cynic::selection_set::field(\"author\", fields)\n    }\n\
        }\n\n\
        pub struct Author;\n\n\
        impl Author {\n    \
        pub fn name() -> ::cynic::selection_set::SelectionSet<'static, String, Author> {\n        \
        use ::cynic::selection_set::{string, integer, float, boolean};\n\n        \
        ::cynic::selection_set::field(\"name\", string())\n    }\n\
        }\n\n";
    assert_eq!(generated, expected);
}

#[test]
fn generation_is_deterministic() {
    let first = query_dsl_from_schema(POST_AUTHOR_SCHEMA).unwrap();
    let second = query_dsl_from_schema(POST_AUTHOR_SCHEMA).unwrap();
    assert_eq!(first, second);
}

#[test]
fn field_order_is_preserved() {
    let schema = "
type Thing {
  zebra: String
  apple: String
  mango: Int
}
";
    let generated = query_dsl_from_schema(schema).unwrap();
    let zebra = generated.find("pub fn zebra").unwrap();
    let apple = generated.find("pub fn apple").unwrap();
    let mango = generated.find("pub fn mango").unwrap();
    assert!(zebra < apple);
    assert!(apple < mango);
}

#[test]
fn wire_name_stays_literal_while_accessor_is_snake_case() {
    let schema = "
type Query {
  someField: String
}
";
    let generated = query_dsl_from_schema(schema).unwrap();
    assert!(generated.contains("pub fn some_field()"));
    assert!(generated.contains("::cynic::selection_set::field(\"someField\", string())"));
    assert!(!generated.contains("pub fn someField"));
}

#[test]
fn duplicate_type_names_emit_only_the_later_fields() {
    let schema = "
type Post {
  oldField: String
}

type Post {
  newField: String
}
";
    let generated = query_dsl_from_schema(schema).unwrap();
    assert!(generated.contains("pub fn new_field"));
    assert!(!generated.contains("pub fn old_field"));
    assert!(!generated.contains("oldField"));
    assert_eq!(generated.matches("pub struct Post;").count(), 1);
}

#[test]
fn unknown_named_type_still_emits() {
    let schema = "
type Post {
  author: MyCustomType
}
";
    let generated = query_dsl_from_schema(schema).unwrap();
    assert!(generated.contains(
        "pub fn author<'a, T>(fields: ::cynic::selection_set::SelectionSet<'a, T, MyCustomType>)"
    ));
}

#[test]
fn non_object_definitions_are_silently_dropped() {
    let schema = "
scalar Date

enum Color {
  RED
  GREEN
}

type Post {
  title: String
}

interface Node {
  id: ID
}
";
    let generated = query_dsl_from_schema(schema).unwrap();
    assert!(generated.contains("pub struct Post;"));
    assert!(!generated.contains("pub struct Date"));
    assert!(!generated.contains("pub struct Color"));
    assert!(!generated.contains("pub struct Node"));
}

#[test]
fn parse_failure_aborts_the_pass() {
    let r = query_dsl_from_schema("this is not a schema document {");
    assert!(matches!(r, Err(Error::ParseError(_))));
}

#[test]
fn non_ascii_whitespace_is_rejected_before_parsing() {
    let r = query_dsl_from_schema("type Post {\n  title: String\u{00A0}\n}");
    match r {
        Err(Error::ParseError(m)) => {
            assert_eq!(m, "schema text holds a non-ASCII whitespace character")
        },
        _ => panic!("expected a parse error"),
    }
}

#[test]
fn block_string_with_multibyte_indent_fails_instead_of_panicking() {
    // A block-string line indented by a two-byte whitespace character while
    // another line fixes a one-byte indent would be sliced mid-character by
    // the parser; the pass must reject it as a parse failure, not abort.
    let schema = "\"\"\"\n a\n\u{00A0}\"\"\"\ntype Post {\n  title: String\n}";
    let r = query_dsl_from_schema(schema);
    assert!(matches!(r, Err(Error::ParseError(_))));
}

#[test]
fn ascii_whitespace_still_parses() {
    let schema = "\ttype Post {\r\n  title: String\n}\n";
    let r = query_dsl_from_schema(schema);
    assert!(r.is_ok());
    assert!(r.unwrap().contains("pub struct Post;"));
}

#[test]
fn non_ascii_text_outside_whitespace_still_parses() {
    let schema = "# caf\u{e9}\ntype Post {\n  title: String\n}\n";
    let r = query_dsl_from_schema(schema);
    assert!(r.is_ok());
    assert!(r.unwrap().contains("pub struct Post;"));
}

#[test]
fn empty_schema_text_is_a_parse_failure() {
    let r = query_dsl_from_schema("");
    assert!(matches!(r, Err(Error::ParseError(_))));
}

#[test]
fn error_equality_compares_kind_and_message() {
    assert_eq!(Error::IoError("gone".to_string()), Error::IoError("gone".to_string()));
    assert_ne!(Error::IoError("gone".to_string()), Error::IoError("other".to_string()));
    assert_ne!(Error::IoError("gone".to_string()), Error::ParseError("gone".to_string()));
    assert_eq!(Error::MissingQueryDefinition, Error::MissingQueryDefinition);
}

#[test]
fn dsl_for_object_emits_marker_and_impl() {
    let object = ObjectTypeDef {
        name: "Author".to_string(),
        fields: vec![FieldDef {
            name: "name".to_string(),
            field_type: TypeRef::Named("String".to_string()),
        }],
    };
    let emitted = dsl_for_object(&object);
    assert!(emitted.starts_with("pub struct Author;\n\nimpl Author {\n"));
    assert!(emitted.ends_with("}\n\n"));
    assert!(emitted.contains("pub fn name()"));
}

#[test]
fn scalar_accessor_invokes_the_wrapped_selector() {
    let field = FieldDef {
        name: "tags".to_string(),
        field_type: TypeRef::List(Box::new(TypeRef::Named("String".to_string()))),
    };
    let emitted = select_function_for_field(&field, &"Post".to_string());
    let expected = "    pub fn tags() -> ::cynic::selection_set::SelectionSet<'static, Vec<String>, Post> {\n        \
        use ::cynic::selection_set::{string, integer, float, boolean};\n\n        \
        ::cynic::selection_set::field(\"tags\", ::cynic::selection_set::vec(string()))\n    }\n";
    assert_eq!(emitted, expected);
}

#[test]
fn object_accessor_takes_a_scoped_selection_set() {
    let field = FieldDef {
        name: "bestFriend".to_string(),
        field_type: TypeRef::Named("Author".to_string()),
    };
    let emitted = select_function_for_field(&field, &"Author".to_string());
    let expected = "    pub fn best_friend<'a, T>(fields: ::cynic::selection_set::SelectionSet<'a, T, Author>) -> ::cynic::selection_set::SelectionSet<T, Author> where T: 'a {\n        \
        ::cynic::selection_set::field(\"bestFriend\", fields)\n    }\n";
    assert_eq!(emitted, expected);
}
