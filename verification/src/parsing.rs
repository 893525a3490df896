//! The schema-parsing collaborator: `graphql_parser` turns raw
//! schema-definition-language text into a definition list. The parser itself
//! is outside code; its calls stand behind trusted items, and everything the
//! rest of the crate does with the parsed definitions is verified.

use vstd::prelude::*;
use vstd::string::StrSliceExecFns;
use crate::schema::FieldDef;
use crate::schema::ObjectTypeDef;
use crate::schema::SchemaDefinition;
use crate::schema::TypeRef;

verus! {

#[verifier::external_type_specification]
#[verifier::external_body]
pub struct ExDefinition(graphql_parser::schema::Definition);

#[verifier::external_type_specification]
#[verifier::external_body]
pub struct ExType(graphql_parser::schema::Type);

/// What the schema parser yields on given text: the definition list, or the
/// parser's failure message. The parser is deterministic, so its outcome is a
/// function of the text alone; nothing beyond that is assumed of it.
pub uninterp spec fn parsed_schema(text: Seq<char>) -> Result<Seq<SchemaDefinition>, Seq<char>>;

/// A Unicode whitespace character outside ASCII: U+0085, U+00A0, U+1680,
/// U+2000 through U+200A, U+2028, U+2029, U+202F, U+205F or U+3000. The
/// parser computes block-string indentation as a byte count of each line's
/// trimmed leading whitespace and slices lines at that byte offset; a
/// multibyte whitespace character can put the offset inside a character and
/// abort the parse by panic. Text free of these characters keeps every such
/// offset on a character boundary.
pub open spec fn is_non_ascii_whitespace(c: char) -> bool {
    let u = c as u32;
    ||| u == 0x85
    ||| u == 0xA0
    ||| u == 0x1680
    ||| (0x2000 <= u && u <= 0x200A)
    ||| u == 0x2028
    ||| u == 0x2029
    ||| u == 0x202F
    ||| u == 0x205F
    ||| u == 0x3000
}

/// Whether any character of the text is non-ASCII whitespace.
pub open spec fn has_non_ascii_whitespace(text: Seq<char>) -> bool {
    exists|i: int| 0 <= i < text.len() && is_non_ascii_whitespace(text[i])
}

/// Scans the schema text for a non-ASCII whitespace character, the one kind
/// of input the parser must not see.
pub(crate) fn contains_non_ascii_whitespace(schema: &str) -> (r: bool)
    ensures
        r == has_non_ascii_whitespace(schema@),
{
    let len = schema.unicode_len();
    let mut i: usize = 0;
    while i < len
        invariant
            len == schema@.len(),
            0 <= i <= len,
            forall|j: int| 0 <= j < i ==> !is_non_ascii_whitespace(schema@[j]),
        decreases len - i,
    {
        let c = schema.get_char(i);
        let u = c as u32;
        if u == 0x85 || u == 0xA0 || u == 0x1680 || (0x2000 <= u && u <= 0x200A) || u == 0x2028
            || u == 0x2029 || u == 0x202F || u == 0x205F || u == 0x3000 {
            proof {
                assert(0 <= i < schema@.len() && is_non_ascii_whitespace(schema@[i as int]));
            }
            return true;
        }
        i = i + 1;
    }
    false
}

/// Relies on graphql_parser's schema syntax tree: copies one type reference
/// into the library's own form, wrapper for wrapper, the leaf name as the
/// schema text spells it.
#[verifier::external_body]
fn type_ref_from_parsed(t: &graphql_parser::schema::Type) -> TypeRef {
    match t {
        graphql_parser::schema::Type::NamedType(name) => TypeRef::Named(name.clone()),
        graphql_parser::schema::Type::ListType(inner) => TypeRef::List(
            Box::new(type_ref_from_parsed(inner)),
        ),
        graphql_parser::schema::Type::NonNullType(inner) => TypeRef::NonNull(
            Box::new(type_ref_from_parsed(inner)),
        ),
    }
}

/// Relies on graphql_parser's schema syntax tree: copies one definition into
/// the library's form. An object type keeps its name and its fields in
/// declaration order; every other definition kind becomes `Other`.
#[verifier::external_body]
fn definition_from_parsed(d: &graphql_parser::schema::Definition) -> SchemaDefinition {
    match d {
        graphql_parser::schema::Definition::TypeDefinition(
            graphql_parser::schema::TypeDefinition::Object(o),
        ) => {
            let mut fields: Vec<FieldDef> = Vec::new();
            for f in &o.fields {
                fields.push(FieldDef { name: f.name.clone(), field_type: type_ref_from_parsed(&f.field_type) });
            }
            SchemaDefinition::Object(ObjectTypeDef { name: o.name.clone(), fields })
        }
        _ => SchemaDefinition::Other,
    }
}

/// Relies on graphql_parser::schema::parse_schema: parses a
/// schema-definition-language document into its definition list, or reports
/// the parse failure as text. The parser reads its input alone, so the
/// outcome is the one `parsed_schema` names for this text. On text holding a
/// non-ASCII whitespace character the parser's block-string indentation
/// slicing can panic (see `is_non_ascii_whitespace`), so `requires` leaves
/// such text out; callers scan first.
#[verifier::external_body]
pub(crate) fn parse_schema_defs(schema: &str) -> (r: Result<Vec<SchemaDefinition>, String>)
    requires
        !has_non_ascii_whitespace(schema@),
    ensures
        r is Ok <==> parsed_schema(schema@) is Ok,
        r is Ok ==> r->Ok_0@ == parsed_schema(schema@)->Ok_0,
        r is Err ==> r->Err_0@ == parsed_schema(schema@)->Err_0,
{
    match graphql_parser::schema::parse_schema(schema) {
        Ok(doc) => {
            let mut defs: Vec<SchemaDefinition> = Vec::new();
            for d in &doc.definitions {
                defs.push(definition_from_parsed(d));
            }
            Ok(defs)
        }
        Err(e) => Err(e.to_string()),
    }
}

} // verus!
