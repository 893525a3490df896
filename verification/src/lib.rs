//! Schema-driven generator of a typed query-building API.
//!
//! Given a schema of named object types with typed fields, the crate builds an
//! index of the object types, resolves each field's (possibly wrapped) type
//! reference to a generated type expression plus an optional scalar selector,
//! and emits one marker struct and one accessor per field as Rust source text.

mod casing;
mod emitter;
mod index;
mod parsing;
mod pipeline;
mod resolver;
mod schema;

pub use casing::snake_of;
pub use emitter::dsl_for_object;
pub use emitter::lemma_field_order;
pub use emitter::select_function_for_field;
pub use emitter::spec_accessor;
pub use emitter::spec_accessors;
pub use emitter::spec_emit_objects;
pub use emitter::spec_object_accessor;
pub use emitter::spec_object_dsl;
pub use emitter::spec_scalar_accessor;
pub use index::SchemaData;
pub use index::data_from_schema;
pub use index::lemma_duplicate_type_names;
pub use index::lemma_index_is_last_write;
pub use index::lemma_index_unique;
pub use index::spec_index;
pub use index::spec_insert;
pub use index::spec_last_object;
pub use index::spec_lookup;
pub use index::spec_unique_names;
pub use parsing::has_non_ascii_whitespace;
pub use parsing::is_non_ascii_whitespace;
pub use parsing::parsed_schema;
pub use pipeline::generation_post;
pub use pipeline::lemma_generation_deterministic;
pub use pipeline::query_dsl_from_schema;
pub use pipeline::spec_generate;
pub use pipeline::spec_whitespace_rejection;
pub use resolver::field_type_and_scalar_call;
pub use resolver::is_builtin_scalar;
pub use resolver::lemma_scalar_object_partition;
pub use resolver::lemma_unknown_named_type;
pub use resolver::lemma_wrapper_composition;
pub use resolver::opt_string_view;
pub use resolver::spec_field_type;
pub use resolver::spec_leaf_name;
pub use resolver::spec_named_scalar_call;
pub use resolver::spec_named_type;
pub use resolver::spec_scalar_call;
pub use schema::Error;
pub use schema::FieldDef;
pub use schema::ObjectTypeDef;
pub use schema::QueryDslParams;
pub use schema::SchemaDefinition;
pub use schema::TypeRef;
