//! The DSL emitter: for each indexed object type, one zero-data marker
//! struct named after the type — a compile-time type lock — and one accessor
//! per field, in field-declaration order. A scalar field gets a zero-argument
//! accessor invoking the resolved scalar selector; an object field gets a
//! generic accessor taking a caller-supplied selection set scoped to the
//! field's own marker. The wire field name always stands in the emitted body
//! as a string literal, while the accessor is declared under its snake_case
//! form.

use vstd::prelude::*;
use vstd::string::StringExecFns;
use crate::casing::snake_of;
use crate::casing::to_snake_case;
use crate::resolver::field_type_and_scalar_call;
use crate::resolver::opt_string_view;
use crate::resolver::spec_field_type;
use crate::resolver::spec_scalar_call;
use crate::schema::FieldDef;
use crate::schema::ObjectTypeDef;

verus! {

/// The accessor of a scalar field: zero arguments, returning a selection set
/// of the resolved scalar type under the enclosing marker; its body tags the
/// wire name with the scalar-selector invocation.
pub open spec fn spec_scalar_accessor(
    name: Seq<char>,
    ty: Seq<char>,
    call: Seq<char>,
    lock: Seq<char>,
) -> Seq<char> {
    "    pub fn "@ + snake_of(name) + "() -> ::cynic::selection_set::SelectionSet<'static, "@
        + ty + ", "@ + lock
        + "> {\n        use ::cynic::selection_set::{string, integer, float, boolean};\n\n        ::cynic::selection_set::field(\""@
        + name + "\", "@ + call + ")\n    }\n"@
}

/// The accessor of an object field: one argument, a caller-supplied
/// selection set scoped to the field's resolved marker, forwarded under the
/// wire name with its result type unchanged.
pub open spec fn spec_object_accessor(name: Seq<char>, ty: Seq<char>, lock: Seq<char>) -> Seq<
    char,
> {
    "    pub fn "@ + snake_of(name)
        + "<'a, T>(fields: ::cynic::selection_set::SelectionSet<'a, T, "@ + ty
        + ">) -> ::cynic::selection_set::SelectionSet<T, "@ + lock
        + "> where T: 'a {\n        ::cynic::selection_set::field(\""@ + name
        + "\", fields)\n    }\n"@
}

/// The accessor a field gets: the scalar form when the resolver yields a
/// selector, the object form when it does not.
pub open spec fn spec_accessor(f: FieldDef, lock: Seq<char>) -> Seq<char> {
    match spec_scalar_call(f.field_type) {
        Some(call) => spec_scalar_accessor(f.name@, spec_field_type(f.field_type), call, lock),
        None => spec_object_accessor(f.name@, spec_field_type(f.field_type), lock),
    }
}

/// The accessors of a field list, concatenated in declaration order.
pub open spec fn spec_accessors(fields: Seq<FieldDef>, lock: Seq<char>) -> Seq<char>
    decreases fields.len(),
{
    if fields.len() == 0 {
        Seq::empty()
    } else {
        spec_accessors(fields.drop_last(), lock) + spec_accessor(fields.last(), lock)
    }
}

/// The emitted unit of one object type: the marker struct and the impl block
/// holding the field accessors.
pub open spec fn spec_object_dsl(o: ObjectTypeDef) -> Seq<char> {
    "pub struct "@ + o.name@ + ";\n\nimpl "@ + o.name@ + " {\n"@ + spec_accessors(
        o.fields@,
        o.name@,
    ) + "}\n\n"@
}

/// The emitted units of an index, concatenated in index iteration order.
pub open spec fn spec_emit_objects(idx: Seq<ObjectTypeDef>) -> Seq<char>
    decreases idx.len(),
{
    if idx.len() == 0 {
        Seq::empty()
    } else {
        spec_emit_objects(idx.drop_last()) + spec_object_dsl(idx.last())
    }
}

/// Field order preservation: the emitted accessor block of a field list
/// splits, at every position, into the accessors of the earlier fields, that
/// field's accessor, and the accessors of the later fields. Emitted accessor
/// order is the schema's field declaration order.
pub proof fn lemma_field_order(fields: Seq<FieldDef>, lock: Seq<char>, i: int)
    requires
        0 <= i < fields.len(),
    ensures
        spec_accessors(fields, lock) == spec_accessors(fields.take(i), lock) + spec_accessor(
            fields[i],
            lock,
        ) + spec_accessors(fields.skip(i + 1), lock),
    decreases fields.len(),
{
    if i == fields.len() - 1 {
        assert(fields.take(i) =~= fields.drop_last());
        assert(fields.skip(i + 1) =~= Seq::<FieldDef>::empty());
        assert(fields.last() == fields[i]);
        assert(spec_accessors(fields.take(i), lock) + spec_accessor(fields[i], lock)
            + Seq::<char>::empty() =~= spec_accessors(fields.take(i), lock) + spec_accessor(
            fields[i],
            lock,
        ));
    } else {
        let dl = fields.drop_last();
        lemma_field_order(dl, lock, i);
        assert(dl.take(i) =~= fields.take(i));
        assert(dl[i] == fields[i]);
        assert(dl.skip(i + 1) =~= fields.skip(i + 1).drop_last());
        assert(fields.skip(i + 1).last() == fields.last());
        assert(fields.skip(i + 1).len() > 0);
        assert(spec_accessors(fields.skip(i + 1), lock) == spec_accessors(
            fields.skip(i + 1).drop_last(),
            lock,
        ) + spec_accessor(fields.last(), lock));
        assert(spec_accessors(fields, lock) == spec_accessors(dl, lock) + spec_accessor(
            fields.last(),
            lock,
        ));
        assert((spec_accessors(fields.take(i), lock) + spec_accessor(fields[i], lock)
            + spec_accessors(fields.skip(i + 1).drop_last(), lock)) + spec_accessor(
            fields.last(),
            lock,
        ) =~= spec_accessors(fields.take(i), lock) + spec_accessor(fields[i], lock)
            + (spec_accessors(fields.skip(i + 1).drop_last(), lock) + spec_accessor(
            fields.last(),
            lock,
        )));
    }
}

/// Emits the accessor of one field under the given type lock.
pub fn select_function_for_field(field: &FieldDef, type_lock: &String) -> (r: String)
    ensures
        r@ == spec_accessor(*field, type_lock@),
{
    let rust_field_name = to_snake_case(field.name.as_str());
    let (field_type, scalar_call) = field_type_and_scalar_call(&field.field_type);
    let mut out = String::from_str("    pub fn ");
    out.append(rust_field_name.as_str());
    match scalar_call {
        Some(call) => {
            out.append("() -> ::cynic::selection_set::SelectionSet<'static, ");
            out.append(field_type.as_str());
            out.append(", ");
            out.append(type_lock.as_str());
            out.append(
                "> {\n        use ::cynic::selection_set::{string, integer, float, boolean};\n\n        ::cynic::selection_set::field(\"",
            );
            out.append(field.name.as_str());
            out.append("\", ");
            out.append(call.as_str());
            out.append(")\n    }\n");
            proof {
                assert(opt_string_view(Some(call)) == spec_scalar_call(field.field_type));
                assert(out@ =~= spec_scalar_accessor(
                    field.name@,
                    spec_field_type(field.field_type),
                    call@,
                    type_lock@,
                ));
            }
        },
        None => {
            out.append("<'a, T>(fields: ::cynic::selection_set::SelectionSet<'a, T, ");
            out.append(field_type.as_str());
            out.append(">) -> ::cynic::selection_set::SelectionSet<T, ");
            out.append(type_lock.as_str());
            out.append("> where T: 'a {\n        ::cynic::selection_set::field(\"");
            out.append(field.name.as_str());
            out.append("\", fields)\n    }\n");
            proof {
                assert(opt_string_view(None) == spec_scalar_call(field.field_type));
                assert(out@ =~= spec_object_accessor(
                    field.name@,
                    spec_field_type(field.field_type),
                    type_lock@,
                ));
            }
        },
    }
    out
}

/// Emits the unit of one object type: the zero-data marker struct — never
/// constructible by generated-code clients with data, carrying no runtime
/// state — and the impl block with one accessor per field, in declaration
/// order.
pub fn dsl_for_object(object: &ObjectTypeDef) -> (r: String)
    ensures
        r@ == spec_object_dsl(*object),
{
    let mut out = String::from_str("pub struct ");
    out.append(object.name.as_str());
    out.append(";\n\nimpl ");
    out.append(object.name.as_str());
    out.append(" {\n");
    let ghost prefix = out@;
    let mut i: usize = 0;
    proof {
        assert(object.fields@.take(0) =~= Seq::<FieldDef>::empty());
    }
    while i < object.fields.len()
        invariant
            0 <= i <= object.fields@.len(),
            prefix == "pub struct "@ + object.name@ + ";\n\nimpl "@ + object.name@ + " {\n"@,
            out@ == prefix + spec_accessors(object.fields@.take(i as int), object.name@),
        decreases object.fields@.len() - i,
    {
        let accessor = select_function_for_field(&object.fields[i], &object.name);
        out.append(accessor.as_str());
        proof {
            assert(object.fields@.take(i + 1).drop_last() =~= object.fields@.take(i as int));
            assert(object.fields@.take(i + 1).last() == object.fields@[i as int]);
            assert(out@ =~= prefix + spec_accessors(object.fields@.take(i + 1), object.name@));
        }
        i = i + 1;
    }
    proof {
        assert(object.fields@.take(object.fields@.len() as int) =~= object.fields@);
    }
    out.append("}\n\n");
    proof {
        assert(out@ =~= spec_object_dsl(*object));
    }
    out
}

} // verus!
