//! The metadata snapshot model and the reconciler.
//!
//! A [`Metadata`] value is the data layer's current tracked state: per
//! logical source, the tracked tables together with the object and array
//! relationships already registered on each. The reconciler compares that
//! snapshot against what the database reports — a list of qualified tables
//! and a list of foreign-key edges — and computes what is not yet tracked.
//!
//! Table identity is always the full `(schema, name)` pair, never the name
//! alone; [`same_table`] is that notion of equality and every contract in
//! this module speaks through it.

use vstd::prelude::*;

use crate::types::{
    is_array_candidate, is_object_candidate, str_eq, CreateRelationship, RelType,
    SQLFKRelationship,
};

verus! {

/// A `(schema, name)` pair uniquely identifying a relational table.
pub struct QualifiedTable {
    pub name: String,
    pub schema: String,
}

/// Table identity: two qualified tables denote the same table exactly when
/// both the schema and the name agree.
pub open spec fn same_table(a: QualifiedTable, b: QualifiedTable) -> bool {
    a.name@ == b.name@ && a.schema@ == b.schema@
}

impl PartialEq for QualifiedTable {
    fn eq(&self, other: &Self) -> (r: bool) {
        self.name == other.name && self.schema == other.schema
    }
}

impl vstd::std_specs::cmp::PartialEqSpecImpl for QualifiedTable {
    open spec fn obeys_eq_spec() -> bool {
        true
    }

    open spec fn eq_spec(&self, other: &Self) -> bool {
        same_table(*self, *other)
    }
}

impl Clone for QualifiedTable {
    fn clone(&self) -> (r: Self)
        ensures
            r == *self,
    {
        QualifiedTable { name: self.name.clone(), schema: self.schema.clone() }
    }
}

/// An object relationship already registered on a tracked table, keyed on
/// the local column holding the foreign key.
pub struct ObjectRelationships {
    pub name: String,
    pub using: ObjRelUsing,
}

/// The "using" clause of an object relationship: the local foreign-key
/// column it is built on.
pub struct ObjRelUsing {
    pub foreign_key_constraint_on: String,
}

/// The "using" clause of an array relationship: the remote column and the
/// remote table holding the foreign key.
pub struct ArrayRelUsing {
    pub foreign_key_constraint_on: ArrayRelUsingFKeyOn,
}

/// The foreign-key reference an array relationship is built on.
pub struct ArrayRelUsingFKeyOn {
    pub column: String,
    pub table: QualifiedTable,
}

/// An array relationship already registered on a tracked table.
pub struct ArrayRelationships {
    pub name: String,
    pub using: ArrayRelUsing,
}

/// One tracked table of a source: the table itself plus the relationships
/// registered on it.
pub struct TableEntry {
    pub table: QualifiedTable,
    pub object_relationships: Vec<ObjectRelationships>,
    pub array_relationships: Vec<ArrayRelationships>,
}

/// A tracked database function of a source.
pub type QualifiedFunction = QualifiedTable;

/// One tracked function entry of a source.
pub struct FunctionEntry {
    pub function: QualifiedFunction,
}

/// One logical source of the data layer, with its tracked tables.
pub struct MetadataSource {
    pub name: String,
    pub kind: Option<String>,
    pub tables: Vec<TableEntry>,
    pub functions: Option<Vec<FunctionEntry>>,
}

/// The data layer's tracked-state snapshot.
pub struct Metadata {
    pub version: u8,
    pub sources: Vec<MetadataSource>,
}

/// Whether one source's tracked-table list holds an entry for `table`.
pub open spec fn spec_source_tracks(ms: MetadataSource, table: QualifiedTable) -> bool {
    exists|j: int|
        0 <= j < ms.tables@.len() && same_table((#[trigger] ms.tables@[j]).table, table)
}

impl Metadata {
    /// Whether some source of the snapshot tracks `table`, compared by the
    /// full `(schema, name)` pair.
    pub open spec fn spec_table_tracked(self, table: QualifiedTable) -> bool {
        exists|i: int|
            0 <= i < self.sources@.len() && spec_source_tracks(#[trigger] self.sources@[i], table)
    }

    /// The subsequence of `discovered` whose tables the snapshot does not
    /// track, in discovery order and without de-duplication.
    pub open spec fn spec_untracked_tables(self, discovered: Seq<QualifiedTable>) -> Seq<
        QualifiedTable,
    >
        decreases discovered.len(),
    {
        if discovered.len() == 0 {
            Seq::empty()
        } else {
            let rest = self.spec_untracked_tables(discovered.drop_last());
            if !self.spec_table_tracked(discovered.last()) {
                rest.push(discovered.last())
            } else {
                rest
            }
        }
    }

    /// True exactly when some source's tracked-table list contains an entry
    /// matching `(schema, name)`.
    pub fn is_table_tracked(&self, table: &QualifiedTable) -> (r: bool)
        ensures
            r == self.spec_table_tracked(*table),
    {
        let mut i: usize = 0;
        while i < self.sources.len()
            invariant
                i <= self.sources@.len(),
                forall|k: int| 0 <= k < i ==> !spec_source_tracks(#[trigger] self.sources@[k], *table),
            decreases self.sources@.len() - i,
        {
            if source_tracks(&self.sources[i], table) {
                return true;
            }
            i = i + 1;
        }
        false
    }

    /// The tables of `discovered` absent from every source's tracked tables,
    /// in discovery order; duplicates in `discovered` are kept as given.
    pub fn get_untracked_tables(&self, tables: Vec<QualifiedTable>) -> (r: Vec<QualifiedTable>)
        ensures
            r@ == self.spec_untracked_tables(tables@),
    {
        let mut result: Vec<QualifiedTable> = Vec::new();
        let mut i: usize = 0;
        while i < tables.len()
            invariant
                i <= tables@.len(),
                result@ == self.spec_untracked_tables(tables@.take(i as int)),
            decreases tables@.len() - i,
        {
            proof {
                assert(tables@.take(i + 1).drop_last() =~= tables@.take(i as int));
                assert(tables@.take(i + 1).last() == tables@[i as int]);
            }
            if !self.is_table_tracked(&tables[i]) {
                result.push(tables[i].clone());
            }
            i = i + 1;
        }
        proof {
            assert(tables@.take(tables@.len() as int) =~= tables@);
        }
        result
    }
}

/// The first source carrying `name`, in snapshot order; a later source of
/// the same name is shadowed.
pub open spec fn first_source_with_name(sources: Seq<MetadataSource>, name: Seq<char>) -> Option<
    MetadataSource,
>
    decreases sources.len(),
{
    if sources.len() == 0 {
        None
    } else if sources[0].name@ == name {
        Some(sources[0])
    } else {
        first_source_with_name(sources.drop_first(), name)
    }
}

/// The first tracked-table entry for `table`, in list order; a later entry
/// for the same table is shadowed.
pub open spec fn first_entry_for_table(tables: Seq<TableEntry>, table: QualifiedTable) -> Option<
    TableEntry,
>
    decreases tables.len(),
{
    if tables.len() == 0 {
        None
    } else if same_table(tables[0].table, table) {
        Some(tables[0])
    } else {
        first_entry_for_table(tables.drop_first(), table)
    }
}

/// Whether the column mapping holds `key` as a local column.
pub open spec fn spec_mapping_has_key(mapping: Seq<(String, String)>, key: Seq<char>) -> bool {
    exists|l: int| 0 <= l < mapping.len() && (#[trigger] mapping[l]).0@ == key
}

/// Whether `entry` already carries an array relationship whose nested
/// foreign-key reference names `owning` by qualified name. The column is
/// deliberately not checked: a second distinct foreign key between the same
/// two tables counts as already tracked.
pub open spec fn spec_entry_has_array_rel_to(entry: TableEntry, owning: QualifiedTable) -> bool {
    exists|k: int|
        0 <= k < entry.array_relationships@.len() && same_table(
            (#[trigger] entry.array_relationships@[k]).using.foreign_key_constraint_on.table,
            owning,
        )
}

/// Whether `entry` already carries an object relationship keyed on one of
/// the edge's local columns, whatever name it was registered under.
pub open spec fn spec_entry_has_object_rel_on(entry: TableEntry, rel: SQLFKRelationship) -> bool {
    exists|k: int|
        0 <= k < entry.object_relationships@.len() && spec_mapping_has_key(
            rel.column_mapping@,
            (#[trigger] entry.object_relationships@[k]).using.foreign_key_constraint_on@,
        )
}

impl Metadata {
    /// Whether the candidate that `rel_type` selects from edge `rel` is
    /// already tracked under `source`: the candidate's table must be tracked
    /// by the first source of that name, and the matching entry must already
    /// carry a relationship of that kind for the edge.
    pub open spec fn spec_relationship_tracked(
        self,
        rel: SQLFKRelationship,
        rel_type: RelType,
        source: Seq<char>,
    ) -> bool {
        let owning = QualifiedTable { name: rel.table_name, schema: rel.table_schema };
        let referenced = QualifiedTable { name: rel.ref_table_name, schema: rel.ref_table_schema };
        let rel_table = match rel_type {
            RelType::Array => referenced,
            RelType::Object => owning,
        };
        match first_source_with_name(self.sources@, source) {
            None => false,
            Some(src) => match first_entry_for_table(src.tables@, rel_table) {
                None => false,
                Some(entry) => match rel_type {
                    RelType::Array => spec_entry_has_array_rel_to(entry, owning),
                    RelType::Object => spec_entry_has_object_rel_on(entry, rel),
                },
            },
        }
    }

    /// The subsequence of `rels` whose candidate of kind `rel_type` is not
    /// yet tracked under `source`, in edge order.
    pub open spec fn spec_untracked_rels(
        self,
        rels: Seq<SQLFKRelationship>,
        rel_type: RelType,
        source: Seq<char>,
    ) -> Seq<SQLFKRelationship>
        decreases rels.len(),
    {
        if rels.len() == 0 {
            Seq::empty()
        } else {
            let rest = self.spec_untracked_rels(rels.drop_last(), rel_type, source);
            if !self.spec_relationship_tracked(rels.last(), rel_type, source) {
                rest.push(rels.last())
            } else {
                rest
            }
        }
    }

    /// The relationship-creation operations for the edges' untracked
    /// candidates: all untracked array candidates in edge order, followed by
    /// all untracked object candidates in edge order. The grouping is kept
    /// exactly, since the remote service may process a bulk list
    /// sequentially. Each edge's two candidates are tested independently.
    pub fn get_untracked_relationships(
        &self,
        relationships: &Vec<SQLFKRelationship>,
        source: &str,
    ) -> (r: Vec<CreateRelationship>)
        requires
            forall|i: int| 0 <= i < relationships@.len() ==> (#[trigger] relationships@[i]).wf(),
        ensures
            ({
                let arr = self.spec_untracked_rels(relationships@, RelType::Array, source@);
                let obj = self.spec_untracked_rels(relationships@, RelType::Object, source@);
                &&& r@.len() == arr.len() + obj.len()
                &&& forall|i: int|
                    0 <= i < arr.len() ==> ((#[trigger] r@[i]) matches CreateRelationship::Array(a)
                        && is_array_candidate(a, arr[i], source@))
                &&& forall|i: int|
                    0 <= i < obj.len() ==> ((#[trigger] r@[arr.len() + i]) matches CreateRelationship::Object(o)
                        && is_object_candidate(o, obj[i], source@))
            }),
    {
        let mut result: Vec<CreateRelationship> = Vec::new();
        let mut i: usize = 0;
        while i < relationships.len()
            invariant
                i <= relationships@.len(),
                forall|k: int| 0 <= k < relationships@.len() ==> (#[trigger] relationships@[k]).wf(),
                ({
                    let arr = self.spec_untracked_rels(
                        relationships@.take(i as int),
                        RelType::Array,
                        source@,
                    );
                    &&& result@.len() == arr.len()
                    &&& forall|k: int|
                        0 <= k < arr.len() ==> ((#[trigger] result@[k]) matches CreateRelationship::Array(a)
                            && is_array_candidate(a, arr[k], source@))
                }),
            decreases relationships@.len() - i,
        {
            proof {
                assert(relationships@.take(i + 1).drop_last() =~= relationships@.take(i as int));
                assert(relationships@.take(i + 1).last() == relationships@[i as int]);
            }
            let rel = &relationships[i];
            if !self.is_relationship_tracked(rel, RelType::Array, source) {
                let (_obj_rel, arr_rel) = rel.get_relationships(source);
                result.push(CreateRelationship::Array(arr_rel));
            }
            i = i + 1;
        }
        proof {
            assert(relationships@.take(relationships@.len() as int) =~= relationships@);
        }
        let mut j: usize = 0;
        while j < relationships.len()
            invariant
                j <= relationships@.len(),
                forall|k: int| 0 <= k < relationships@.len() ==> (#[trigger] relationships@[k]).wf(),
                ({
                    let arr = self.spec_untracked_rels(relationships@, RelType::Array, source@);
                    let obj = self.spec_untracked_rels(
                        relationships@.take(j as int),
                        RelType::Object,
                        source@,
                    );
                    &&& result@.len() == arr.len() + obj.len()
                    &&& forall|k: int|
                        0 <= k < arr.len() ==> ((#[trigger] result@[k]) matches CreateRelationship::Array(a)
                            && is_array_candidate(a, arr[k], source@))
                    &&& forall|k: int|
                        0 <= k < obj.len() ==> ((#[trigger] result@[arr.len() + k]) matches CreateRelationship::Object(o)
                            && is_object_candidate(o, obj[k], source@))
                }),
            decreases relationships@.len() - j,
        {
            proof {
                assert(relationships@.take(j + 1).drop_last() =~= relationships@.take(j as int));
                assert(relationships@.take(j + 1).last() == relationships@[j as int]);
            }
            let rel = &relationships[j];
            if !self.is_relationship_tracked(rel, RelType::Object, source) {
                let (obj_rel, _arr_rel) = rel.get_relationships(source);
                result.push(CreateRelationship::Object(obj_rel));
            }
            j = j + 1;
        }
        proof {
            assert(relationships@.take(relationships@.len() as int) =~= relationships@);
        }
        result
    }

    /// True exactly when the candidate that `rel_type` selects from the edge
    /// is already registered: its table tracked under `source` and carrying a
    /// matching relationship, as [`Metadata::spec_relationship_tracked`]
    /// states.
    pub fn is_relationship_tracked(
        &self,
        relationship: &SQLFKRelationship,
        rel_type: RelType,
        source: &str,
    ) -> (r: bool)
        ensures
            r == self.spec_relationship_tracked(*relationship, rel_type, source@),
    {
        let owning = QualifiedTable {
            name: relationship.table_name.clone(),
            schema: relationship.table_schema.clone(),
        };
        let referenced = QualifiedTable {
            name: relationship.ref_table_name.clone(),
            schema: relationship.ref_table_schema.clone(),
        };
        let rel_table = match rel_type {
            RelType::Array => &referenced,
            RelType::Object => &owning,
        };
        match find_source(&self.sources, source) {
            None => false,
            Some(src) => match find_entry(&src.tables, rel_table) {
                None => false,
                Some(entry) => match rel_type {
                    RelType::Array => entry_has_array_rel_to(entry, &owning),
                    RelType::Object => entry_has_object_rel_on(entry, relationship),
                },
            },
        }
    }
}

/// The first source named `source`, as [`first_source_with_name`] selects it.
fn find_source<'a>(sources: &'a Vec<MetadataSource>, source: &str) -> (r: Option<
    &'a MetadataSource,
>)
    ensures
        match r {
            Some(ms) => first_source_with_name(sources@, source@) == Some(*ms),
            None => first_source_with_name(sources@, source@) is None,
        },
{
    let mut i: usize = 0;
    proof {
        assert(sources@.skip(0) =~= sources@);
    }
    while i < sources.len()
        invariant
            i <= sources@.len(),
            first_source_with_name(sources@, source@) == first_source_with_name(
                sources@.skip(i as int),
                source@,
            ),
        decreases sources@.len() - i,
    {
        proof {
            assert(sources@.skip(i as int)[0] == sources@[i as int]);
        }
        if str_eq(sources[i].name.as_str(), source) {
            return Some(&sources[i]);
        }
        proof {
            assert(sources@.skip(i as int).drop_first() =~= sources@.skip(i + 1));
        }
        i = i + 1;
    }
    proof {
        assert(sources@.skip(sources@.len() as int) =~= Seq::<MetadataSource>::empty());
    }
    None
}

/// The first tracked-table entry for `table`, as [`first_entry_for_table`]
/// selects it.
fn find_entry<'a>(tables: &'a Vec<TableEntry>, table: &QualifiedTable) -> (r: Option<
    &'a TableEntry,
>)
    ensures
        match r {
            Some(entry) => first_entry_for_table(tables@, *table) == Some(*entry),
            None => first_entry_for_table(tables@, *table) is None,
        },
{
    let mut i: usize = 0;
    proof {
        assert(tables@.skip(0) =~= tables@);
    }
    while i < tables.len()
        invariant
            i <= tables@.len(),
            first_entry_for_table(tables@, *table) == first_entry_for_table(
                tables@.skip(i as int),
                *table,
            ),
        decreases tables@.len() - i,
    {
        proof {
            assert(tables@.skip(i as int)[0] == tables@[i as int]);
        }
        if tables[i].table == *table {
            return Some(&tables[i]);
        }
        proof {
            assert(tables@.skip(i as int).drop_first() =~= tables@.skip(i + 1));
        }
        i = i + 1;
    }
    proof {
        assert(tables@.skip(tables@.len() as int) =~= Seq::<TableEntry>::empty());
    }
    None
}

/// Whether `entry` already has an array relationship pointing back at
/// `owning`.
fn entry_has_array_rel_to(entry: &TableEntry, owning: &QualifiedTable) -> (r: bool)
    ensures
        r == spec_entry_has_array_rel_to(*entry, *owning),
{
    let mut k: usize = 0;
    while k < entry.array_relationships.len()
        invariant
            k <= entry.array_relationships@.len(),
            forall|l: int|
                0 <= l < k ==> !same_table(
                    (#[trigger] entry.array_relationships@[l]).using.foreign_key_constraint_on.table,
                    *owning,
                ),
        decreases entry.array_relationships@.len() - k,
    {
        if entry.array_relationships[k].using.foreign_key_constraint_on.table == *owning {
            return true;
        }
        k = k + 1;
    }
    false
}

/// Whether `entry` already has an object relationship keyed on one of the
/// edge's local columns.
fn entry_has_object_rel_on(entry: &TableEntry, relationship: &SQLFKRelationship) -> (r: bool)
    ensures
        r == spec_entry_has_object_rel_on(*entry, *relationship),
{
    let mut k: usize = 0;
    while k < entry.object_relationships.len()
        invariant
            k <= entry.object_relationships@.len(),
            forall|l: int|
                0 <= l < k ==> !spec_mapping_has_key(
                    relationship.column_mapping@,
                    (#[trigger] entry.object_relationships@[l]).using.foreign_key_constraint_on@,
                ),
        decreases entry.object_relationships@.len() - k,
    {
        if mapping_contains_key(
            &relationship.column_mapping,
            &entry.object_relationships[k].using.foreign_key_constraint_on,
        ) {
            return true;
        }
        k = k + 1;
    }
    false
}

/// Whether the column mapping holds `key` as a local column.
fn mapping_contains_key(mapping: &Vec<(String, String)>, key: &String) -> (r: bool)
    ensures
        r == spec_mapping_has_key(mapping@, key@),
{
    let mut l: usize = 0;
    while l < mapping.len()
        invariant
            l <= mapping@.len(),
            forall|m: int| 0 <= m < l ==> (#[trigger] mapping@[m]).0@ != key@,
        decreases mapping@.len() - l,
    {
        if mapping[l].0 == *key {
            return true;
        }
        l = l + 1;
    }
    false
}

/// Law: the untracked-table diff is drawn from the discovered list — every
/// element of the diff occurs in `discovered` and is untracked, and every
/// untracked element of `discovered` occurs in the diff.
pub proof fn lemma_untracked_tables_iff(m: Metadata, discovered: Seq<QualifiedTable>)
    ensures
        forall|i: int|
            0 <= i < m.spec_untracked_tables(discovered).len() ==> discovered.contains(
                #[trigger] m.spec_untracked_tables(discovered)[i],
            ) && !m.spec_table_tracked(m.spec_untracked_tables(discovered)[i]),
        forall|i: int|
            0 <= i < discovered.len() && !m.spec_table_tracked(#[trigger] discovered[i])
                ==> m.spec_untracked_tables(discovered).contains(discovered[i]),
    decreases discovered.len(),
{
    if discovered.len() > 0 {
        let prefix = discovered.drop_last();
        let last = discovered.last();
        lemma_untracked_tables_iff(m, prefix);
        let u = m.spec_untracked_tables(discovered);
        let up = m.spec_untracked_tables(prefix);
        assert forall|i: int| 0 <= i < u.len() implies discovered.contains(#[trigger] u[i])
            && !m.spec_table_tracked(u[i]) by {
            if i < up.len() {
                assert(u[i] == up[i]);
                let j = choose|j: int| 0 <= j < prefix.len() && prefix[j] == up[i];
                assert(discovered[j] == up[i]);
            } else {
                assert(u[i] == last);
                assert(discovered[discovered.len() - 1] == last);
            }
        }
        assert forall|i: int|
            0 <= i < discovered.len() && !m.spec_table_tracked(#[trigger] discovered[i]) implies u.contains(
            discovered[i],
        ) by {
            if i < discovered.len() - 1 {
                assert(prefix[i] == discovered[i]);
                assert(up.contains(discovered[i]));
                let k = choose|k: int| 0 <= k < up.len() && up[k] == discovered[i];
                assert(u[k] == discovered[i]);
            } else {
                assert(u[u.len() - 1] == last);
            }
        }
    }
}

/// Law: reconciliation is monotone in the snapshot. If every table the old
/// snapshot tracks is also tracked by the new one, re-running on the same
/// discovered list yields an equal-or-smaller untracked diff — in
/// particular, applying the reconciler's own output and re-running can only
/// shrink it.
pub proof fn lemma_untracked_tables_monotone(
    before: Metadata,
    after: Metadata,
    discovered: Seq<QualifiedTable>,
)
    requires
        forall|t: QualifiedTable| #[trigger]
            before.spec_table_tracked(t) ==> after.spec_table_tracked(t),
    ensures
        after.spec_untracked_tables(discovered).len() <= before.spec_untracked_tables(
            discovered,
        ).len(),
    decreases discovered.len(),
{
    if discovered.len() > 0 {
        lemma_untracked_tables_monotone(before, after, discovered.drop_last());
        if !after.spec_table_tracked(discovered.last()) {
            assert(!before.spec_table_tracked(discovered.last()));
        }
    }
}

/// Law: applying the reconciler's output settles the diff. If the new
/// snapshot still tracks everything the old one tracked and also tracks
/// every table of the old untracked diff, re-running on the same discovered
/// list finds nothing left to track.
pub proof fn lemma_untracked_tables_applied_empty(
    before: Metadata,
    after: Metadata,
    discovered: Seq<QualifiedTable>,
)
    requires
        forall|t: QualifiedTable| #[trigger]
            before.spec_table_tracked(t) ==> after.spec_table_tracked(t),
        forall|t: QualifiedTable|
            before.spec_untracked_tables(discovered).contains(t) ==> #[trigger] after.spec_table_tracked(
                t,
            ),
    ensures
        after.spec_untracked_tables(discovered).len() == 0,
    decreases discovered.len(),
{
    if discovered.len() > 0 {
        let prefix = discovered.drop_last();
        let last = discovered.last();
        let u = before.spec_untracked_tables(discovered);
        let up = before.spec_untracked_tables(prefix);
        assert forall|t: QualifiedTable| up.contains(t) implies #[trigger] after.spec_table_tracked(
            t,
        ) by {
            let k = choose|k: int| 0 <= k < up.len() && up[k] == t;
            assert(u[k] == t);
            assert(u.contains(t));
        }
        lemma_untracked_tables_applied_empty(before, after, prefix);
        if !after.spec_table_tracked(last) {
            assert(!before.spec_table_tracked(last));
            assert(u[u.len() - 1] == last);
            assert(u.contains(last));
            assert(false);
        }
    }
}

/// Law: relationship reconciliation is monotone in the snapshot, kind by
/// kind. If every candidate of kind `rel_type` the old snapshot tracks is
/// also tracked by the new one, re-running on the same edges yields an
/// equal-or-smaller untracked diff.
pub proof fn lemma_untracked_rels_monotone(
    before: Metadata,
    after: Metadata,
    rels: Seq<SQLFKRelationship>,
    rel_type: RelType,
    source: Seq<char>,
)
    requires
        forall|r: SQLFKRelationship| #[trigger]
            before.spec_relationship_tracked(r, rel_type, source)
                ==> after.spec_relationship_tracked(r, rel_type, source),
    ensures
        after.spec_untracked_rels(rels, rel_type, source).len() <= before.spec_untracked_rels(
            rels,
            rel_type,
            source,
        ).len(),
    decreases rels.len(),
{
    if rels.len() > 0 {
        lemma_untracked_rels_monotone(before, after, rels.drop_last(), rel_type, source);
        if !after.spec_relationship_tracked(rels.last(), rel_type, source) {
            assert(!before.spec_relationship_tracked(rels.last(), rel_type, source));
        }
    }
}

/// Whether `ms`'s tracked-table list holds an entry for `table`.
fn source_tracks(ms: &MetadataSource, table: &QualifiedTable) -> (r: bool)
    ensures
        r == spec_source_tracks(*ms, *table),
{
    let mut j: usize = 0;
    while j < ms.tables.len()
        invariant
            j <= ms.tables@.len(),
            forall|k: int| 0 <= k < j ==> !same_table((#[trigger] ms.tables@[k]).table, *table),
        decreases ms.tables@.len() - j,
    {
        if ms.tables[j].table == *table {
            return true;
        }
        j = j + 1;
    }
    false
}

} // verus!
