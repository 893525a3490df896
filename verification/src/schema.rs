//! The data model: type references, fields, object types, schema definitions,
//! the generation parameters, and the error taxonomy.

use vstd::prelude::*;

verus! {

/// A field's declared type: a leaf named type, wrapped in any nesting of
/// non-null and list wrappers. `Named` is always the eventual leaf.
#[derive(Debug)]
pub enum TypeRef {
    NonNull(Box<TypeRef>),
    List(Box<TypeRef>),
    Named(String),
}

/// One field of an object type: the wire name as it stands in the schema,
/// and the field's type reference.
#[derive(Debug)]
pub struct FieldDef {
    pub name: String,
    pub field_type: TypeRef,
}

/// A named object type with its ordered field list. Field order is
/// meaningful: it determines accessor declaration order in the output.
#[derive(Debug)]
pub struct ObjectTypeDef {
    pub name: String,
    pub fields: Vec<FieldDef>,
}

/// One schema-level definition. Only object types are consumed; every other
/// kind of definition (scalar, enum, interface, union, input type, directive,
/// schema block) is out of scope and carried as `Other`.
#[derive(Debug)]
pub enum SchemaDefinition {
    Object(ObjectTypeDef),
    Other,
}

/// Parameters of one generation pass: the path of the schema document.
#[derive(Debug)]
pub struct QueryDslParams {
    pub schema_filename: String,
}

impl QueryDslParams {
    pub fn new(schema_filename: String) -> (r: Self)
        ensures
            r.schema_filename == schema_filename,
    {
        QueryDslParams { schema_filename }
    }
}

/// The failure taxonomy of a generation pass. Every failure aborts the whole
/// pass; no partial output is produced. `MissingQueryDefinition` is declared
/// in the taxonomy but no path in this crate raises it.
#[derive(Debug)]
pub enum Error {
    IoError(String),
    ParseError(String),
    MissingQueryDefinition,
}

impl Error {
    /// What equality of two errors means: same kind, same message text.
    pub open spec fn eq_spec(self, other: Error) -> bool {
        match (self, other) {
            (Error::IoError(a), Error::IoError(b)) => a@ == b@,
            (Error::ParseError(a), Error::ParseError(b)) => a@ == b@,
            (Error::MissingQueryDefinition, Error::MissingQueryDefinition) => true,
            _ => false,
        }
    }
}

impl PartialEq for Error {
    fn eq(&self, other: &Error) -> (r: bool) {
        match (self, other) {
            (Error::IoError(a), Error::IoError(b)) => a.eq(b),
            (Error::ParseError(a), Error::ParseError(b)) => a.eq(b),
            (Error::MissingQueryDefinition, Error::MissingQueryDefinition) => true,
            _ => false,
        }
    }
}

impl vstd::std_specs::cmp::PartialEqSpecImpl for Error {
    open spec fn obeys_eq_spec() -> bool {
        true
    }

    open spec fn eq_spec(&self, other: &Error) -> bool {
        Error::eq_spec(*self, *other)
    }
}

} // verus!
