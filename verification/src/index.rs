//! The type index: a single forward scan over the schema's definition list,
//! keeping only the object types, keyed by name. A later definition with a
//! name already present silently replaces the earlier one (last-write-wins;
//! kept as observed behaviour, not as a specified policy). Key order is the
//! order of first occurrence, so one pass iterates deterministically.

use vstd::prelude::*;
use crate::schema::ObjectTypeDef;
use crate::schema::SchemaDefinition;

verus! {

/// The index that one generation pass builds and consumes: the object types
/// in iteration order, names unique. It is passed explicitly from the
/// builder to the emitter and persists nowhere.
#[derive(Debug)]
pub struct SchemaData {
    pub types: Vec<ObjectTypeDef>,
}

/// No two entries of an index share a name.
pub open spec fn spec_unique_names(idx: Seq<ObjectTypeDef>) -> bool {
    forall|i: int, j: int| 0 <= i < j < idx.len() ==> idx[i].name@ != idx[j].name@
}

impl SchemaData {
    pub open spec fn wf(self) -> bool {
        spec_unique_names(self.types@)
    }
}

/// One insertion into the index: an entry of the same name is replaced in
/// place, a new name is appended.
pub open spec fn spec_insert(idx: Seq<ObjectTypeDef>, o: ObjectTypeDef) -> Seq<ObjectTypeDef>
    decreases idx.len(),
{
    if idx.len() == 0 {
        seq![o]
    } else if idx.first().name@ == o.name@ {
        seq![o] + idx.drop_first()
    } else {
        seq![idx.first()] + spec_insert(idx.drop_first(), o)
    }
}

/// The index of a definition list: the forward scan, object definitions
/// inserted in order, every other definition kind dropped.
pub open spec fn spec_index(defs: Seq<SchemaDefinition>) -> Seq<ObjectTypeDef>
    decreases defs.len(),
{
    if defs.len() == 0 {
        Seq::empty()
    } else {
        match defs.last() {
            SchemaDefinition::Object(o) => spec_insert(spec_index(defs.drop_last()), o),
            SchemaDefinition::Other => spec_index(defs.drop_last()),
        }
    }
}

/// The entry of an index under a name, if any.
pub open spec fn spec_lookup(idx: Seq<ObjectTypeDef>, name: Seq<char>) -> Option<ObjectTypeDef>
    decreases idx.len(),
{
    if idx.len() == 0 {
        None
    } else if idx.first().name@ == name {
        Some(idx.first())
    } else {
        spec_lookup(idx.drop_first(), name)
    }
}

/// The last object definition of a list that carries a name, if any.
pub open spec fn spec_last_object(defs: Seq<SchemaDefinition>, name: Seq<char>) -> Option<
    ObjectTypeDef,
>
    decreases defs.len(),
{
    if defs.len() == 0 {
        None
    } else {
        match defs.last() {
            SchemaDefinition::Object(o) => if o.name@ == name {
                Some(o)
            } else {
                spec_last_object(defs.drop_last(), name)
            },
            SchemaDefinition::Other => spec_last_object(defs.drop_last(), name),
        }
    }
}

proof fn lemma_insert_found(idx: Seq<ObjectTypeDef>, o: ObjectTypeDef, k: int)
    requires
        0 <= k < idx.len(),
        idx[k].name@ == o.name@,
        forall|j: int| 0 <= j < k ==> idx[j].name@ != o.name@,
    ensures
        spec_insert(idx, o) == idx.update(k, o),
    decreases idx.len(),
{
    if k == 0 {
        assert(spec_insert(idx, o) =~= idx.update(0, o));
    } else {
        assert(idx.first().name@ != o.name@);
        assert(forall|j: int| 0 <= j < k - 1 ==> idx.drop_first()[j].name@ != o.name@) by {
            assert(forall|j: int| 0 <= j < k - 1 ==> idx.drop_first()[j] == idx[j + 1]);
        }
        lemma_insert_found(idx.drop_first(), o, k - 1);
        assert(seq![idx.first()] + idx.drop_first().update(k - 1, o) =~= idx.update(k, o));
    }
}

proof fn lemma_insert_absent(idx: Seq<ObjectTypeDef>, o: ObjectTypeDef)
    requires
        forall|j: int| 0 <= j < idx.len() ==> idx[j].name@ != o.name@,
    ensures
        spec_insert(idx, o) == idx.push(o),
    decreases idx.len(),
{
    if idx.len() == 0 {
        assert(spec_insert(idx, o) =~= idx.push(o));
    } else {
        assert(forall|j: int| 0 <= j < idx.drop_first().len() ==> idx.drop_first()[j].name@
            != o.name@) by {
            assert(forall|j: int|
                0 <= j < idx.drop_first().len() ==> idx.drop_first()[j] == idx[j + 1]);
        }
        lemma_insert_absent(idx.drop_first(), o);
        assert(seq![idx.first()] + idx.drop_first().push(o) =~= idx.push(o));
    }
}

proof fn lemma_insert_unique(idx: Seq<ObjectTypeDef>, o: ObjectTypeDef)
    requires
        spec_unique_names(idx),
    ensures
        spec_unique_names(spec_insert(idx, o)),
    decreases idx.len(),
{
    if idx.len() == 0 {
    } else if idx.first().name@ == o.name@ {
        assert(spec_insert(idx, o) =~= idx.update(0, o));
        assert forall|i: int, j: int|
            0 <= i < j < idx.update(0, o).len() implies idx.update(0, o)[i].name@ != idx.update(
            0,
            o,
        )[j].name@ by {
            assert(idx[i].name@ != idx[j].name@);
        }
    } else {
        assert(spec_unique_names(idx.drop_first())) by {
            assert(forall|j: int|
                0 <= j < idx.drop_first().len() ==> idx.drop_first()[j] == idx[j + 1]);
        }
        lemma_insert_unique(idx.drop_first(), o);
        lemma_insert_keeps_names(idx.drop_first(), o);
        let result = seq![idx.first()] + spec_insert(idx.drop_first(), o);
        assert forall|i: int, j: int| 0 <= i < j < result.len() implies result[i].name@
            != result[j].name@ by {
            if i == 0 {
                assert(result[j] == spec_insert(idx.drop_first(), o)[j - 1]);
            } else {
                assert(result[i] == spec_insert(idx.drop_first(), o)[i - 1]);
                assert(result[j] == spec_insert(idx.drop_first(), o)[j - 1]);
            }
        }
    }
}

/// Every name in an insertion's result was the inserted name or was already
/// present.
proof fn lemma_insert_keeps_names(idx: Seq<ObjectTypeDef>, o: ObjectTypeDef)
    ensures
        forall|i: int|
            0 <= i < spec_insert(idx, o).len() ==> spec_insert(idx, o)[i].name@ == o.name@
                || exists|j: int| 0 <= j < idx.len() && #[trigger] idx[j].name@ == spec_insert(
                idx,
                o,
            )[i].name@,
    decreases idx.len(),
{
    if idx.len() == 0 {
    } else if idx.first().name@ == o.name@ {
        assert forall|i: int| 0 <= i < spec_insert(idx, o).len() implies spec_insert(idx, o)[i].name@
            == o.name@ || exists|j: int| 0 <= j < idx.len() && #[trigger] idx[j].name@
            == spec_insert(idx, o)[i].name@ by {
            if i > 0 {
                assert(spec_insert(idx, o)[i] == idx[i]);
                assert(idx[i].name@ == spec_insert(idx, o)[i].name@);
            }
        }
    } else {
        lemma_insert_keeps_names(idx.drop_first(), o);
        assert forall|i: int| 0 <= i < spec_insert(idx, o).len() implies spec_insert(idx, o)[i].name@
            == o.name@ || exists|j: int| 0 <= j < idx.len() && #[trigger] idx[j].name@
            == spec_insert(idx, o)[i].name@ by {
            if i == 0 {
                assert(idx[0].name@ == spec_insert(idx, o)[0].name@);
            } else {
                let rest = spec_insert(idx.drop_first(), o);
                assert(spec_insert(idx, o)[i] == rest[i - 1]);
                if rest[i - 1].name@ != o.name@ {
                    let j = choose|j: int|
                        0 <= j < idx.drop_first().len() && #[trigger] idx.drop_first()[j].name@
                            == rest[i - 1].name@;
                    assert(idx[j + 1].name@ == spec_insert(idx, o)[i].name@);
                }
            }
        }
    }
}

/// The index an insertion yields answers lookups for the inserted name with
/// the new entry, and for every other name as before.
proof fn lemma_lookup_insert(idx: Seq<ObjectTypeDef>, o: ObjectTypeDef, name: Seq<char>)
    ensures
        spec_lookup(spec_insert(idx, o), name) == if name == o.name@ {
            Some(o)
        } else {
            spec_lookup(idx, name)
        },
    decreases idx.len(),
{
    if idx.len() == 0 {
        assert(spec_insert(idx, o) == seq![o]);
        assert(seq![o].first() == o);
        assert(seq![o].drop_first() =~= Seq::<ObjectTypeDef>::empty());
        if name == o.name@ {
            assert(spec_lookup(seq![o], name) == Some(o));
        } else {
            assert(spec_lookup(seq![o], name) == spec_lookup(seq![o].drop_first(), name));
            assert(spec_lookup(idx, name) is None);
        }
    } else if idx.first().name@ == o.name@ {
        let result = seq![o] + idx.drop_first();
        assert(spec_insert(idx, o) == result);
        assert(result.first() == o);
        assert(result.len() > 0);
        assert(result.drop_first() =~= idx.drop_first());
        if name == o.name@ {
            assert(spec_lookup(result, name) == Some(o));
        } else {
            assert(spec_lookup(result, name) == spec_lookup(idx.drop_first(), name));
            assert(spec_lookup(idx, name) == spec_lookup(idx.drop_first(), name));
        }
    } else {
        let result = seq![idx.first()] + spec_insert(idx.drop_first(), o);
        assert(spec_insert(idx, o) == result);
        assert(result.first() == idx.first());
        assert(result.len() > 0);
        assert(result.drop_first() =~= spec_insert(idx.drop_first(), o));
        lemma_lookup_insert(idx.drop_first(), o, name);
        if name == idx.first().name@ {
            assert(spec_lookup(result, name) == Some(idx.first()));
            assert(spec_lookup(idx, name) == Some(idx.first()));
        } else {
            assert(spec_lookup(result, name) == spec_lookup(spec_insert(idx.drop_first(), o), name));
            assert(spec_lookup(idx, name) == spec_lookup(idx.drop_first(), name));
        }
    }
}

/// Looking a name up in the built index finds exactly the last object
/// definition that carries it.
pub proof fn lemma_index_is_last_write(defs: Seq<SchemaDefinition>, name: Seq<char>)
    ensures
        spec_lookup(spec_index(defs), name) == spec_last_object(defs, name),
    decreases defs.len(),
{
    if defs.len() == 0 {
    } else {
        lemma_index_is_last_write(defs.drop_last(), name);
        match defs.last() {
            SchemaDefinition::Object(o) => {
                lemma_lookup_insert(spec_index(defs.drop_last()), o, name);
            },
            SchemaDefinition::Other => {},
        }
    }
}

/// The index built from a definition list never holds two entries of one
/// name.
pub proof fn lemma_index_unique(defs: Seq<SchemaDefinition>)
    ensures
        spec_unique_names(spec_index(defs)),
    decreases defs.len(),
{
    if defs.len() == 0 {
    } else {
        lemma_index_unique(defs.drop_last());
        match defs.last() {
            SchemaDefinition::Object(o) => {
                lemma_insert_unique(spec_index(defs.drop_last()), o);
            },
            SchemaDefinition::Other => {},
        }
    }
}

/// Duplicate type names: when two object definitions share a name, the index
/// retains only the later one. Looking the shared name up yields the object
/// of the last definition that carries it, never an earlier one.
pub proof fn lemma_duplicate_type_names(defs: Seq<SchemaDefinition>, i: int, j: int)
    requires
        0 <= i < j < defs.len(),
        defs[i] is Object,
        defs[j] is Object,
        defs[i]->Object_0.name@ == defs[j]->Object_0.name@,
        forall|k: int|
            j < k < defs.len() && #[trigger] defs[k] is Object ==> defs[k]->Object_0.name@
                != defs[j]->Object_0.name@,
    ensures
        spec_lookup(spec_index(defs), defs[j]->Object_0.name@) == Some(defs[j]->Object_0),
{
    lemma_index_is_last_write(defs, defs[j]->Object_0.name@);
    lemma_last_object_at(defs, j, defs[j]->Object_0.name@);
}

proof fn lemma_last_object_at(defs: Seq<SchemaDefinition>, j: int, name: Seq<char>)
    requires
        0 <= j < defs.len(),
        defs[j] is Object,
        defs[j]->Object_0.name@ == name,
        forall|k: int|
            j < k < defs.len() && #[trigger] defs[k] is Object ==> defs[k]->Object_0.name@ != name,
    ensures
        spec_last_object(defs, name) == Some(defs[j]->Object_0),
    decreases defs.len(),
{
    if j == defs.len() - 1 {
    } else {
        assert(defs.last() == defs[defs.len() - 1]);
        assert(forall|k: int|
            j < k < defs.drop_last().len() && #[trigger] defs.drop_last()[k] is Object
                ==> defs.drop_last()[k]->Object_0.name@ != name) by {
            assert(forall|k: int|
                0 <= k < defs.drop_last().len() ==> defs.drop_last()[k] == defs[k]);
        }
        lemma_last_object_at(defs.drop_last(), j, name);
    }
}

/// The position of the entry that carries a name, if any: the first one, and
/// with unique names the only one.
fn find_entry(types: &Vec<ObjectTypeDef>, name: &String) -> (r: Option<usize>)
    ensures
        match r {
            Some(k) => k < types@.len() && types@[k as int].name@ == name@ && forall|j: int|
                0 <= j < k ==> types@[j].name@ != name@,
            None => forall|j: int| 0 <= j < types@.len() ==> types@[j].name@ != name@,
        },
{
    let mut k: usize = 0;
    while k < types.len()
        invariant
            0 <= k <= types@.len(),
            forall|j: int| 0 <= j < k ==> types@[j].name@ != name@,
        decreases types@.len() - k,
    {
        if types[k].name.eq(name) {
            return Some(k);
        }
        k = k + 1;
    }
    None
}

/// Replaces the entry that shares the inserted object's name, or appends the
/// object when no entry does.
fn insert_object(types: &mut Vec<ObjectTypeDef>, o: ObjectTypeDef)
    ensures
        final(types)@ == spec_insert(old(types)@, o),
{
    let ghost orig = types@;
    match find_entry(types, &o.name) {
        Some(k) => {
            proof {
                lemma_insert_found(orig, o, k as int);
            }
            types.remove(k);
            types.insert(k, o);
            proof {
                assert(types@ =~= orig.update(k as int, o));
            }
        },
        None => {
            proof {
                lemma_insert_absent(orig, o);
            }
            types.push(o);
        },
    }
}

/// Builds the type index from the parsed definition list: one forward scan,
/// object types kept under their names, later definitions replacing earlier
/// ones of the same name, every other definition kind silently dropped.
/// Referential integrity is not checked here: a field may reference a name
/// absent from the index.
pub fn data_from_schema(definitions: Vec<SchemaDefinition>) -> (r: SchemaData)
    ensures
        r.types@ == spec_index(definitions@),
        r.wf(),
{
    let ghost all = definitions@;
    let mut defs = definitions;
    let mut types: Vec<ObjectTypeDef> = Vec::new();
    proof {
        assert(all.take(0) =~= Seq::<SchemaDefinition>::empty());
    }
    while defs.len() > 0
        invariant
            defs@.len() <= all.len(),
            defs@ == all.skip(all.len() - defs@.len()),
            types@ == spec_index(all.take(all.len() - defs@.len())),
        decreases defs@.len(),
    {
        let ghost done: int = all.len() - defs@.len();
        let d = defs.remove(0);
        proof {
            assert(d == all[done]);
            assert(defs@ =~= all.skip(done + 1));
            assert(all.take(done + 1).drop_last() =~= all.take(done));
            assert(all.take(done + 1).last() == all[done]);
        }
        match d {
            SchemaDefinition::Object(o) => {
                insert_object(&mut types, o);
            },
            SchemaDefinition::Other => {},
        }
    }
    proof {
        assert(all.take(all.len() as int) =~= all);
        lemma_index_unique(all);
    }
    SchemaData { types }
}

} // verus!
