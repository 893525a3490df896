//! The field type resolver: structural recursion over a type reference,
//! yielding the generated type expression and, for built-in scalar leaves,
//! the scalar-selector invocation.
//!
//! The non-null wrapper maps to an `Option` in the generated type and the
//! bare named or list form stays unwrapped. That polarity is inverted
//! relative to conventional nullability semantics, and is kept deliberately:
//! downstream consumers may depend on it.

use vstd::prelude::*;
use vstd::string::StringExecFns;
use crate::schema::TypeRef;

verus! {

/// The four reserved built-in scalar names. The match is case-sensitive and
/// exact; every other name, ID-like scalars included, is an object reference.
pub open spec fn is_builtin_scalar(name: Seq<char>) -> bool {
    ||| name == "String"@
    ||| name == "Int"@
    ||| name == "Float"@
    ||| name == "Boolean"@
}

/// The generated type expression for a leaf name: the built-in scalar table,
/// with every other name standing for itself.
pub open spec fn spec_named_type(name: Seq<char>) -> Seq<char> {
    if name == "String"@ {
        "String"@
    } else if name == "Int"@ {
        "i64"@
    } else if name == "Float"@ {
        "f64"@
    } else if name == "Boolean"@ {
        "bool"@
    } else {
        name
    }
}

/// The scalar-selector invocation for a leaf name, if it is a built-in
/// scalar.
pub open spec fn spec_named_scalar_call(name: Seq<char>) -> Option<Seq<char>> {
    if name == "String"@ {
        Some("string()"@)
    } else if name == "Int"@ {
        Some("integer()"@)
    } else if name == "Float"@ {
        Some("float()"@)
    } else if name == "Boolean"@ {
        Some("boolean()"@)
    } else {
        None
    }
}

/// The generated type expression for a type reference: non-null wraps the
/// inner type in `Option`, list wraps it in `Vec`, and a leaf name maps
/// through the built-in scalar table.
pub open spec fn spec_field_type(t: TypeRef) -> Seq<char>
    decreases t,
{
    match t {
        TypeRef::NonNull(inner) => "Option<"@ + spec_field_type(*inner) + ">"@,
        TypeRef::List(inner) => "Vec<"@ + spec_field_type(*inner) + ">"@,
        TypeRef::Named(name) => spec_named_type(name@),
    }
}

/// The scalar-selector invocation for a type reference, if its leaf is a
/// built-in scalar: each wrapper layer wraps the inner invocation in the
/// matching adapter, outermost wrapper first in the call chain.
pub open spec fn spec_scalar_call(t: TypeRef) -> Option<Seq<char>>
    decreases t,
{
    match t {
        TypeRef::NonNull(inner) => match spec_scalar_call(*inner) {
            Some(call) => Some("::cynic::selection_set::option("@ + call + ")"@),
            None => None,
        },
        TypeRef::List(inner) => match spec_scalar_call(*inner) {
            Some(call) => Some("::cynic::selection_set::vec("@ + call + ")"@),
            None => None,
        },
        TypeRef::Named(name) => spec_named_scalar_call(name@),
    }
}

/// The fully-unwrapped leaf name of a type reference.
pub open spec fn spec_leaf_name(t: TypeRef) -> Seq<char>
    decreases t,
{
    match t {
        TypeRef::NonNull(inner) => spec_leaf_name(*inner),
        TypeRef::List(inner) => spec_leaf_name(*inner),
        TypeRef::Named(name) => name@,
    }
}

/// The view of an optional selector string.
pub open spec fn opt_string_view(o: Option<String>) -> Option<Seq<char>> {
    match o {
        Some(s) => Some(s@),
        None => None,
    }
}

/// Scalar/object partition: a type reference resolves with a selector exactly
/// when its fully-unwrapped leaf name is one of the four built-in scalars.
pub proof fn lemma_scalar_object_partition(t: TypeRef)
    ensures
        spec_scalar_call(t) is Some <==> is_builtin_scalar(spec_leaf_name(t)),
    decreases t,
{
    match t {
        TypeRef::NonNull(inner) => lemma_scalar_object_partition(*inner),
        TypeRef::List(inner) => lemma_scalar_object_partition(*inner),
        TypeRef::Named(_) => {},
    }
}

/// Wrapper composition: each wrapper layer composes outside the inner
/// resolution. Non-null wraps the generated type in `Option` and the selector
/// in the optional-value adapter; list wraps the type in `Vec` and the
/// selector in the sequence-value adapter. The wrapper applied last in the
/// type expression is the one applied first in the selector call chain, so
/// wrapping order matches nesting order at every depth.
pub proof fn lemma_wrapper_composition(t: TypeRef)
    ensures
        t is NonNull ==> spec_field_type(t) == "Option<"@ + spec_field_type(*t->NonNull_0)
            + ">"@,
        t is NonNull ==> spec_scalar_call(t) == match spec_scalar_call(*t->NonNull_0) {
            Some(call) => Some("::cynic::selection_set::option("@ + call + ")"@),
            None => None::<Seq<char>>,
        },
        t is List ==> spec_field_type(t) == "Vec<"@ + spec_field_type(*t->List_0) + ">"@,
        t is List ==> spec_scalar_call(t) == match spec_scalar_call(*t->List_0) {
            Some(call) => Some("::cynic::selection_set::vec("@ + call + ")"@),
            None => None::<Seq<char>>,
        },
{
}

/// Unknown named type: a leaf name outside the built-in table resolves to the
/// literal name itself, with no selector. Resolution is total, so emission
/// still succeeds for such a field; no validation failure exists.
pub proof fn lemma_unknown_named_type(name: String)
    requires
        !is_builtin_scalar(name@),
    ensures
        spec_field_type(TypeRef::Named(name)) == name@,
        spec_scalar_call(TypeRef::Named(name)) is None,
{
}

/// Compares a name against a reserved scalar name.
fn string_eq_lit(name: &String, lit: &str) -> (r: bool)
    ensures
        r == (name@ == lit@),
{
    let lit_owned: String = lit.to_owned();
    name.eq(&lit_owned)
}

/// Resolves a type reference to its generated type expression and, when the
/// leaf is a built-in scalar, the scalar-selector invocation.
pub fn field_type_and_scalar_call(gql_type: &TypeRef) -> (r: (String, Option<String>))
    ensures
        r.0@ == spec_field_type(*gql_type),
        opt_string_view(r.1) == spec_scalar_call(*gql_type),
    decreases *gql_type,
{
    match gql_type {
        TypeRef::NonNull(inner_type) => {
            let (inner, inner_call) = field_type_and_scalar_call(inner_type);
            let mut field_type = String::from_str("Option<");
            field_type.append(inner.as_str());
            field_type.append(">");
            let scalar_call = match inner_call {
                Some(expr) => {
                    let mut call = String::from_str("::cynic::selection_set::option(");
                    call.append(expr.as_str());
                    call.append(")");
                    Some(call)
                },
                None => None,
            };
            proof {
                assert(field_type@ =~= spec_field_type(*gql_type));
                assert(opt_string_view(scalar_call) =~~= spec_scalar_call(*gql_type));
            }
            (field_type, scalar_call)
        },
        TypeRef::List(inner_type) => {
            let (inner, inner_call) = field_type_and_scalar_call(inner_type);
            let mut field_type = String::from_str("Vec<");
            field_type.append(inner.as_str());
            field_type.append(">");
            let scalar_call = match inner_call {
                Some(expr) => {
                    let mut call = String::from_str("::cynic::selection_set::vec(");
                    call.append(expr.as_str());
                    call.append(")");
                    Some(call)
                },
                None => None,
            };
            proof {
                assert(field_type@ =~= spec_field_type(*gql_type));
                assert(opt_string_view(scalar_call) =~~= spec_scalar_call(*gql_type));
            }
            (field_type, scalar_call)
        },
        TypeRef::Named(name) => {
            if string_eq_lit(name, "String") {
                (String::from_str("String"), Some(String::from_str("string()")))
            } else if string_eq_lit(name, "Int") {
                (String::from_str("i64"), Some(String::from_str("integer()")))
            } else if string_eq_lit(name, "Float") {
                (String::from_str("f64"), Some(String::from_str("float()")))
            } else if string_eq_lit(name, "Boolean") {
                (String::from_str("bool"), Some(String::from_str("boolean()")))
            } else {
                (name.clone(), None)
            }
        },
    }
}

} // verus!
