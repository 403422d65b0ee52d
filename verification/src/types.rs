//! Wire-shaped operation descriptors and the naming deriver.
//!
//! Each registration operation the library emits is a struct with a string
//! type discriminator and an `args` payload: tracking a table, creating an
//! object relationship, or creating an array relationship. The `pg`
//! constructors pin the driver-qualified discriminator; [`BulkRequest`]
//! batches operations into the one envelope a submission consists of.
//!
//! Relationship names are derived from table names by English inflection:
//! the singular of the referenced table for an object relationship, the
//! plural of the owning table for an array relationship. The inflection
//! itself is delegated to the `inflector` crate; its results are named by
//! the uninterpreted functions [`singular_of`] and [`plural_of`], and every
//! contract downstream speaks of those names.

use vstd::prelude::*;

use crate::error::{HasuraUtilsError, OtherError};
use crate::metadata::{
    same_table, ArrayRelUsing, ArrayRelUsingFKeyOn, ArrayRelationships, ObjRelUsing,
    ObjectRelationships, QualifiedTable,
};

verus! {

/// What a `run_sql` call came back with: either a tuple payload whose second
/// component carries the JSON text of the rows, or a bare command
/// acknowledgement.
pub enum RunSQLReponse {
    TuplesOk(((String,), (String,))),
    CommandOK,
}

/// The singular form that the English inflection rules assign to a name;
/// names the result of the `inflector` crate's `to_singular`.
pub uninterp spec fn singular_of(s: Seq<char>) -> Seq<char>;

/// The plural form that the English inflection rules assign to a name;
/// names the result of the `inflector` crate's `to_plural`.
pub uninterp spec fn plural_of(s: Seq<char>) -> Seq<char>;

/// Relies on inflector's `to_singular`: a pure inflection whose result
/// depends on the characters of the argument alone.
#[verifier::external_body]
fn to_singular(s: &str) -> (r: String)
    ensures
        r@ == singular_of(s@),
{
    inflector::string::singularize::to_singular(s)
}

/// Relies on inflector's `to_plural`: a pure inflection whose result
/// depends on the characters of the argument alone.
#[verifier::external_body]
fn to_plural(s: &str) -> (r: String)
    ensures
        r@ == plural_of(s@),
{
    inflector::string::pluralize::to_plural(s)
}

/// Relies on `str`'s `PartialEq`: string slices compare equal exactly when
/// their character sequences are equal.
#[verifier::external_body]
pub(crate) fn str_eq(a: &str, b: &str) -> (r: bool)
    ensures
        r == (a@ == b@),
{
    a == b
}

/// The name an object relationship gets: the singular of the referenced
/// table's name, since it yields at most one related row.
pub fn derive_object_relationship_name(referenced_table_name: &str) -> (r: String)
    ensures
        r@ == singular_of(referenced_table_name@),
{
    to_singular(referenced_table_name)
}

/// The name an array relationship gets: the plural of the owning table's
/// name, since it yields a collection.
pub fn derive_array_relationship_name(owning_table_name: &str) -> (r: String)
    ensures
        r@ == plural_of(owning_table_name@),
{
    to_plural(owning_table_name)
}

/// Marker for the operation shapes a bulk envelope may carry.
pub trait MetadataRequest {}

/// A track-table operation, ready for wire serialization.
pub struct TrackTable {
    pub request_type: &'static str,
    pub args: TrackTableArgs,
}

/// Arguments of a track-table operation: the logical source and the table.
pub struct TrackTableArgs {
    pub source: String,
    pub table: QualifiedTable,
}

impl TrackTable {
    /// The track-table operation under the fixed "pg" driver tag.
    pub fn pg(args: TrackTableArgs) -> (r: Self)
        ensures
            r.request_type@ == "pg_track_table"@,
            r.args == args,
    {
        Self { request_type: "pg_track_table", args }
    }
}

impl MetadataRequest for TrackTable {

}

/// Which side of a foreign-key edge a relationship candidate sits on.
#[derive(Clone, Copy)]
pub enum RelType {
    Array,
    Object,
}

/// A create-object-relationship operation, ready for wire serialization.
pub struct CreateObjectRelationship {
    pub request_type: &'static str,
    pub args: CreateObjectRelationshipArgs,
}

/// Arguments of a create-object-relationship operation: the derived name and
/// "using" clause, alongside the source and the owning table.
pub struct CreateObjectRelationshipArgs {
    pub rel: ObjectRelationships,
    pub source: String,
    pub table: QualifiedTable,
}

impl CreateObjectRelationship {
    /// The create-object-relationship operation under the fixed "pg" driver
    /// tag.
    pub fn pg(args: CreateObjectRelationshipArgs) -> (r: Self)
        ensures
            r.request_type@ == "pg_create_object_relationship"@,
            r.args == args,
    {
        Self { request_type: "pg_create_object_relationship", args }
    }
}

/// A create-array-relationship operation, ready for wire serialization.
pub struct CreateArrayRelationship {
    pub request_type: &'static str,
    pub args: CreateArrayRelationshipArgs,
}

/// Arguments of a create-array-relationship operation: the derived name and
/// "using" clause, alongside the source and the referenced table.
pub struct CreateArrayRelationshipArgs {
    pub rel: ArrayRelationships,
    pub source: String,
    pub table: QualifiedTable,
}

impl CreateArrayRelationship {
    /// The create-array-relationship operation under the fixed "pg" driver
    /// tag.
    pub fn pg(args: CreateArrayRelationshipArgs) -> (r: Self)
        ensures
            r.request_type@ == "pg_create_array_relationship"@,
            r.args == args,
    {
        Self { request_type: "pg_create_array_relationship", args }
    }
}

/// One database foreign key, as introspection reports it: the owning table,
/// the referenced table, the constraint's name and its column mapping of
/// local column to referenced column (keys unique, order irrelevant).
pub struct SQLFKRelationship {
    pub table_name: String,
    pub table_schema: String,
    pub constraint_name: String,
    pub ref_table_schema: String,
    pub ref_table_name: String,
    pub column_mapping: Vec<(String, String)>,
}

/// Data-model invariant of a column mapping: the local columns are unique;
/// their order carries no meaning.
pub open spec fn spec_mapping_keys_unique(mapping: Seq<(String, String)>) -> bool {
    forall|i: int, j: int|
        0 <= i < j < mapping.len() ==> (#[trigger] mapping[i]).0@ != (#[trigger] mapping[j]).0@
}

impl SQLFKRelationship {
    /// Well-formedness of a foreign-key edge: at least one mapped column —
    /// a database constraint always maps one — with unique local columns.
    pub open spec fn wf(self) -> bool {
        self.column_mapping@.len() > 0 && spec_mapping_keys_unique(self.column_mapping@)
    }
}

/// What the object-relationship candidate built from edge `rel` for `source`
/// looks like: named by the singular of the referenced table, keyed on the
/// edge's first local column, placed on the owning table.
pub open spec fn is_object_candidate(
    op: CreateObjectRelationship,
    rel: SQLFKRelationship,
    source: Seq<char>,
) -> bool {
    &&& op.request_type@ == "pg_create_object_relationship"@
    &&& op.args.source@ == source
    &&& op.args.table.name@ == rel.table_name@
    &&& op.args.table.schema@ == rel.table_schema@
    &&& op.args.rel.name@ == singular_of(rel.ref_table_name@)
    &&& op.args.rel.using.foreign_key_constraint_on@ == rel.column_mapping@[0].0@
}

/// What the array-relationship candidate built from edge `rel` for `source`
/// looks like: named by the plural of the owning table, placed on the
/// referenced table, its "using" clause pointing back at the owning table's
/// foreign-key column.
pub open spec fn is_array_candidate(
    op: CreateArrayRelationship,
    rel: SQLFKRelationship,
    source: Seq<char>,
) -> bool {
    &&& op.request_type@ == "pg_create_array_relationship"@
    &&& op.args.source@ == source
    &&& op.args.table.name@ == rel.ref_table_name@
    &&& op.args.table.schema@ == rel.ref_table_schema@
    &&& op.args.rel.name@ == plural_of(rel.table_name@)
    &&& op.args.rel.using.foreign_key_constraint_on.column@ == rel.column_mapping@[0].0@
    &&& op.args.rel.using.foreign_key_constraint_on.table.name@ == rel.table_name@
    &&& op.args.rel.using.foreign_key_constraint_on.table.schema@ == rel.table_schema@
}

impl SQLFKRelationship {
    /// Derives the edge's two relationship candidates: the object candidate
    /// on the owning table and the array candidate on the referenced table,
    /// both keyed on the edge's first mapped local column.
    pub fn get_relationships(&self, source: &str) -> (r: (
        CreateObjectRelationship,
        CreateArrayRelationship,
    ))
        requires
            self.wf(),
        ensures
            is_object_candidate(r.0, *self, source@),
            is_array_candidate(r.1, *self, source@),
    {
        let key: String = self.column_mapping[0].0.clone();
        let obj_args = CreateObjectRelationshipArgs {
            rel: ObjectRelationships {
                name: to_singular(self.ref_table_name.as_str()),
                using: ObjRelUsing { foreign_key_constraint_on: key.clone() },
            },
            source: source.to_owned(),
            table: QualifiedTable {
                name: self.table_name.clone(),
                schema: self.table_schema.clone(),
            },
        };
        let arr_args = CreateArrayRelationshipArgs {
            source: source.to_owned(),
            table: QualifiedTable {
                name: self.ref_table_name.clone(),
                schema: self.ref_table_schema.clone(),
            },
            rel: ArrayRelationships {
                name: to_plural(self.table_name.as_str()),
                using: ArrayRelUsing {
                    foreign_key_constraint_on: ArrayRelUsingFKeyOn {
                        column: key,
                        table: QualifiedTable {
                            name: self.table_name.clone(),
                            schema: self.table_schema.clone(),
                        },
                    },
                },
            },
        };
        (CreateObjectRelationship::pg(obj_args), CreateArrayRelationship::pg(arr_args))
    }
}

/// One relationship-creation operation of either kind, as a bulk envelope
/// carries them.
pub enum CreateRelationship {
    Object(CreateObjectRelationship),
    Array(CreateArrayRelationship),
}

impl MetadataRequest for CreateRelationship {

}

impl From<CreateObjectRelationship> for CreateRelationship {
    fn from(rel: CreateObjectRelationship) -> (r: Self) {
        CreateRelationship::Object(rel)
    }
}

impl vstd::std_specs::convert::FromSpecImpl<CreateObjectRelationship> for CreateRelationship {
    open spec fn obeys_from_spec() -> bool {
        true
    }

    open spec fn from_spec(rel: CreateObjectRelationship) -> Self {
        CreateRelationship::Object(rel)
    }
}

impl From<CreateArrayRelationship> for CreateRelationship {
    fn from(rel: CreateArrayRelationship) -> (r: Self) {
        CreateRelationship::Array(rel)
    }
}

impl vstd::std_specs::convert::FromSpecImpl<CreateArrayRelationship> for CreateRelationship {
    open spec fn obeys_from_spec() -> bool {
        true
    }

    open spec fn from_spec(rel: CreateArrayRelationship) -> Self {
        CreateRelationship::Array(rel)
    }
}

/// The bulk envelope: one wire-level request batching the given operations
/// in order, under the fixed type discriminator "bulk".
pub struct BulkRequest<T: MetadataRequest> {
    pub request_type: &'static str,
    pub args: Vec<T>,
}

impl<T: MetadataRequest> BulkRequest<T> {
    /// Wraps the operations, in the order given, into one envelope. An empty
    /// operations list is the expected "nothing to do" condition, reported as
    /// an error value here so that no empty bulk call ever exists to submit.
    pub fn new(args: Vec<T>) -> (r: Result<Self, HasuraUtilsError>)
        ensures
            args@.len() == 0 <==> r is Err,
            match r {
                Ok(bulk) => {
                    &&& bulk.request_type@ == "bulk"@
                    &&& bulk.args == args
                },
                Err(e) => (e matches HasuraUtilsError::Other(msg)
                    && msg@ == "Nothing to do: the bulk request is empty"@),
            },
    {
        if args.len() == 0 {
            Err(HasuraUtilsError::from(OtherError("Nothing to do: the bulk request is empty")))
        } else {
            Ok(BulkRequest { request_type: "bulk", args })
        }
    }
}

} // verus!
