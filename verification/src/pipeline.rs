//! The generation pass: schema text in, generated source text out. One
//! single-threaded batch run — parse the whole schema, build the index once,
//! resolve and emit once — with every failure aborting the pass; no partial
//! output exists.

use vstd::prelude::*;
use vstd::string::StringExecFns;
use crate::emitter::dsl_for_object;
use crate::emitter::spec_emit_objects;
use crate::index::data_from_schema;
use crate::index::spec_index;
use crate::parsing::contains_non_ascii_whitespace;
use crate::parsing::has_non_ascii_whitespace;
use crate::parsing::parse_schema_defs;
use crate::parsing::parsed_schema;
use crate::schema::Error;
use crate::schema::SchemaDefinition;

verus! {

/// The text generated from a definition list: the emitted units of its type
/// index, in index iteration order.
pub open spec fn spec_generate(defs: Seq<SchemaDefinition>) -> Seq<char> {
    spec_emit_objects(spec_index(defs))
}

/// The fixed reason under which schema text holding non-ASCII whitespace is
/// rejected before the parser runs.
pub open spec fn spec_whitespace_rejection() -> Seq<char> {
    "schema text holds a non-ASCII whitespace character"@
}

/// What one generation pass yields on given schema text: the generated
/// source for the parsed definitions, or a parse error — the pre-scan's
/// fixed reason for text the parser must not see, else the parser's own
/// failure. Every outcome is a function of the text alone.
pub open spec fn generation_post(schema: Seq<char>, r: Result<String, Error>) -> bool {
    if has_non_ascii_whitespace(schema) {
        r is Err && (r->Err_0 matches Error::ParseError(m) && m@ == spec_whitespace_rejection())
    } else {
        match parsed_schema(schema) {
            Ok(defs) => r is Ok && r->Ok_0@ == spec_generate(defs),
            Err(msg) => r is Err && (r->Err_0 matches Error::ParseError(m) && m@ == msg),
        }
    }
}

/// Runs one generation pass over schema text: parse, index, emit. On a parse
/// failure the pass aborts with the parser's reason and emits nothing.
/// Schema text holding a non-ASCII whitespace character is rejected as a
/// parse failure before the parser runs: the parser slices block-string
/// lines at byte offsets that such a character can split, which would abort
/// the pass by panic instead of by error.
pub fn query_dsl_from_schema(schema: &str) -> (r: Result<String, Error>)
    ensures
        generation_post(schema@, r),
{
    if contains_non_ascii_whitespace(schema) {
        return Err(Error::ParseError(String::from_str(
            "schema text holds a non-ASCII whitespace character",
        )));
    }
    match parse_schema_defs(schema) {
        Ok(definitions) => {
            let ghost defs_view = definitions@;
            let schema_data = data_from_schema(definitions);
            let mut out = String::new();
            let mut i: usize = 0;
            proof {
                assert(schema_data.types@.take(0) =~= Seq::<crate::schema::ObjectTypeDef>::empty());
            }
            while i < schema_data.types.len()
                invariant
                    0 <= i <= schema_data.types@.len(),
                    out@ == spec_emit_objects(schema_data.types@.take(i as int)),
                decreases schema_data.types@.len() - i,
            {
                let object_dsl = dsl_for_object(&schema_data.types[i]);
                out.append(object_dsl.as_str());
                proof {
                    assert(schema_data.types@.take(i + 1).drop_last() =~= schema_data.types@.take(
                        i as int,
                    ));
                    assert(schema_data.types@.take(i + 1).last() == schema_data.types@[i as int]);
                }
                i = i + 1;
            }
            proof {
                assert(schema_data.types@.take(schema_data.types@.len() as int)
                    =~= schema_data.types@);
                assert(out@ == spec_generate(defs_view));
            }
            Ok(out)
        },
        Err(msg) => Err(Error::ParseError(msg)),
    }
}

/// Determinism: two generation passes over the same schema text yield the
/// same outcome — byte-identical generated text, or the same error.
pub proof fn lemma_generation_deterministic(
    schema: Seq<char>,
    r1: Result<String, Error>,
    r2: Result<String, Error>,
)
    requires
        generation_post(schema, r1),
        generation_post(schema, r2),
    ensures
        r1 is Ok <==> r2 is Ok,
        r1 is Ok ==> r1->Ok_0@ == r2->Ok_0@,
        r1 is Err ==> r1->Err_0.eq_spec(r2->Err_0),
{
}

} // verus!
