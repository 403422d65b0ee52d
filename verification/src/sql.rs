//! The introspection query text.
//!
//! The data layer's query endpoint runs plain SQL; this query lists every
//! base table outside the catalog schemas, aggregated into one JSON value.

use vstd::prelude::*;

verus! {

/// The text [`getAllTablesSql`] returns.
pub open spec fn spec_all_tables_sql() -> Seq<char> {
    "
    SELECT
	COALESCE(json_agg(row_to_json(info)), '[]'::JSON)
FROM (
	SELECT
		table_name,
		table_schema
	FROM
		information_schema.tables
	WHERE
		table_type = 'BASE TABLE'
		AND table_schema NOT IN('pg_catalog', 'information_schema')) AS info;
    "@
}

/// The SQL that lists every base table of the database, as
/// `(table_name, table_schema)` rows aggregated into one JSON array;
/// catalog schemas are left out.
#[allow(non_snake_case)]
pub fn getAllTablesSql() -> (r: &'static str)
    ensures
        r@ == spec_all_tables_sql(),
{
    "
    SELECT
	COALESCE(json_agg(row_to_json(info)), '[]'::JSON)
FROM (
	SELECT
		table_name,
		table_schema
	FROM
		information_schema.tables
	WHERE
		table_type = 'BASE TABLE'
		AND table_schema NOT IN('pg_catalog', 'information_schema')) AS info;
    "
}

} // verus!
