//! Health classification and the pure pipeline steps.
//!
//! A run fetches the metadata snapshot and the discovered schema, reconciles
//! them, and wraps the resulting operations into one bulk envelope. The
//! fetching and the submission are transport and stay with the caller; the
//! functions here are the decisions in between: what the health probe's
//! body means, and which requests — if any — a fetched state calls for.
//! An empty diff is reported as an error value rather than submitted, so an
//! empty bulk call never reaches the wire.

use vstd::prelude::*;

use crate::error::{HasuraUtilsError, OtherError};
use crate::metadata::{same_table, Metadata, QualifiedTable};
use crate::types::{
    is_array_candidate, is_object_candidate, str_eq, BulkRequest, CreateRelationship, RelType,
    SQLFKRelationship, TrackTable, TrackTableArgs,
};

verus! {

/// What the health probe reports: healthy, reachable but with inconsistent
/// metadata, or failing.
#[derive(PartialEq, Eq, Structural)]
pub enum HGEHealth {
    Healthy,
    Inconsistent,
    Error,
}

/// The health state a probe body denotes: exactly "OK" is healthy, exactly
/// "ERROR" is failing, and anything else is an inconsistent state.
pub open spec fn spec_health_of(body: Seq<char>) -> HGEHealth {
    if body == "OK"@ {
        HGEHealth::Healthy
    } else if body == "ERROR"@ {
        HGEHealth::Error
    } else {
        HGEHealth::Inconsistent
    }
}

/// Classifies the health probe's response body.
pub fn health_from_response(body: &str) -> (r: HGEHealth)
    ensures
        r == spec_health_of(body@),
{
    if str_eq(body, "OK") {
        HGEHealth::Healthy
    } else if str_eq(body, "ERROR") {
        HGEHealth::Error
    } else {
        HGEHealth::Inconsistent
    }
}

/// What a track-table operation for `table` under `source` looks like on
/// the wire.
pub open spec fn is_track_table_op(op: TrackTable, table: QualifiedTable, source: Seq<char>) -> bool {
    &&& op.request_type@ == "pg_track_table"@
    &&& op.args.source@ == source
    &&& same_table(op.args.table, table)
}

/// The bulk request that tracks every discovered table the snapshot does not
/// track yet, one track-table operation per table in discovery order; when
/// everything is already tracked there is nothing to do, and that is
/// reported as an error value so no empty bulk call is ever submitted.
pub fn track_all_tables_request(
    metadata: &Metadata,
    all_tables: Vec<QualifiedTable>,
    source: &str,
) -> (r: Result<BulkRequest<TrackTable>, HasuraUtilsError>)
    ensures
        ({
            let untracked = metadata.spec_untracked_tables(all_tables@);
            match r {
                Ok(bulk) => {
                    &&& untracked.len() > 0
                    &&& bulk.request_type@ == "bulk"@
                    &&& bulk.args@.len() == untracked.len()
                    &&& forall|i: int|
                        0 <= i < untracked.len() ==> is_track_table_op(
                            #[trigger] bulk.args@[i],
                            untracked[i],
                            source@,
                        )
                },
                Err(e) => untracked.len() == 0 && (e matches HasuraUtilsError::Other(msg)
                    && msg@ == "Database has no untracked tables"@),
            }
        }),
{
    let untracked = metadata.get_untracked_tables(all_tables);
    let mut args: Vec<TrackTable> = Vec::new();
    let mut i: usize = 0;
    while i < untracked.len()
        invariant
            i <= untracked@.len(),
            args@.len() == i,
            forall|k: int|
                0 <= k < i ==> is_track_table_op(#[trigger] args@[k], untracked@[k], source@),
        decreases untracked@.len() - i,
    {
        args.push(
            TrackTable::pg(
                TrackTableArgs { source: source.to_owned(), table: untracked[i].clone() },
            ),
        );
        i = i + 1;
    }
    match BulkRequest::new(args) {
        Ok(bulk) => Ok(bulk),
        Err(_) => Err(HasuraUtilsError::from(OtherError("Database has no untracked tables"))),
    }
}

/// The track-table operation for one table, or nothing when the snapshot
/// already tracks it; callers treat the latter as their own error case.
pub fn track_table_request(metadata: &Metadata, table: QualifiedTable, source: &str) -> (r: Option<
    TrackTable,
>)
    ensures
        match r {
            Some(op) => !metadata.spec_table_tracked(table) && is_track_table_op(
                op,
                table,
                source@,
            ),
            None => metadata.spec_table_tracked(table),
        },
{
    let mut singleton: Vec<QualifiedTable> = Vec::new();
    singleton.push(table.clone());
    proof {
        assert(singleton@.drop_last() =~= Seq::<QualifiedTable>::empty());
        assert(metadata.spec_untracked_tables(Seq::<QualifiedTable>::empty())
            =~= Seq::<QualifiedTable>::empty());
    }
    let untracked = metadata.get_untracked_tables(singleton);
    if untracked.len() == 0 {
        None
    } else {
        Some(TrackTable::pg(TrackTableArgs { source: source.to_owned(), table }))
    }
}

/// The bulk request that registers every untracked relationship candidate
/// the edges give rise to: all untracked array candidates in edge order,
/// then all untracked object candidates in edge order. When every candidate
/// is already tracked there is nothing to do, and that is reported as an
/// error value so no empty bulk call is ever submitted.
pub fn track_all_relationships_request(
    metadata: &Metadata,
    relationships: &Vec<SQLFKRelationship>,
    source: &str,
) -> (r: Result<BulkRequest<CreateRelationship>, HasuraUtilsError>)
    requires
        forall|i: int| 0 <= i < relationships@.len() ==> (#[trigger] relationships@[i]).wf(),
    ensures
        ({
            let arr = metadata.spec_untracked_rels(relationships@, RelType::Array, source@);
            let obj = metadata.spec_untracked_rels(relationships@, RelType::Object, source@);
            match r {
                Ok(bulk) => {
                    &&& arr.len() + obj.len() > 0
                    &&& bulk.request_type@ == "bulk"@
                    &&& bulk.args@.len() == arr.len() + obj.len()
                    &&& forall|i: int|
                        0 <= i < arr.len() ==> ((#[trigger] bulk.args@[i]) matches CreateRelationship::Array(a)
                            && is_array_candidate(a, arr[i], source@))
                    &&& forall|i: int|
                        0 <= i < obj.len() ==> ((#[trigger] bulk.args@[arr.len() + i]) matches CreateRelationship::Object(o)
                            && is_object_candidate(o, obj[i], source@))
                },
                Err(e) => arr.len() + obj.len() == 0 && (e matches HasuraUtilsError::Other(msg)
                    && msg@ == "Database has no untracked relationships"@),
            }
        }),
{
    let untracked = metadata.get_untracked_relationships(relationships, source);
    match BulkRequest::new(untracked) {
        Ok(bulk) => Ok(bulk),
        Err(_) => Err(
            HasuraUtilsError::from(OtherError("Database has no untracked relationships")),
        ),
    }
}

} // verus!
