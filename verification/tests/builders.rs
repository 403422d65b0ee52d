//! Behaviour of the request builders, the naming deriver, the pipeline
//! entry points and the small helpers around them.

use hasurautils::env::{is_supported_driver, EnvVars, RunSQL};
use hasurautils::error::HasuraUtilsError;
use hasurautils::error::OtherError;
use hasurautils::metadata::{
    ArrayRelUsing, ArrayRelUsingFKeyOn, ArrayRelationships, Metadata, MetadataSource, ObjRelUsing,
    ObjectRelationships, QualifiedTable, TableEntry,
};
use hasurautils::sql::getAllTablesSql;
use hasurautils::types::{
    derive_array_relationship_name, derive_object_relationship_name, BulkRequest,
    SQLFKRelationship, TrackTable, TrackTableArgs,
};
use hasurautils::util::{
    health_from_response, track_all_relationships_request, track_all_tables_request,
    track_table_request, HGEHealth,
};

fn table(schema: &str, name: &str) -> QualifiedTable {
    QualifiedTable { name: name.to_owned(), schema: schema.to_owned() }
}

fn snapshot_tracking(source: &str, registered: Vec<QualifiedTable>) -> Metadata {
    let tables = registered
        .into_iter()
        .map(|t| TableEntry {
            table: t,
            object_relationships: Vec::new(),
            array_relationships: Vec::new(),
        })
        .collect();
    Metadata {
        version: 3,
        sources: vec![MetadataSource {
            name: source.to_owned(),
            kind: Some("postgres".to_owned()),
            tables,
            functions: None,
        }],
    }
}

#[test]
fn object_relationship_names_are_singular() {
    assert_eq!(derive_object_relationship_name("authors"), "author");
    assert_eq!(derive_object_relationship_name("categories"), "category");
    assert_eq!(derive_object_relationship_name("oxen"), "ox");
}

#[test]
fn array_relationship_names_are_plural() {
    assert_eq!(derive_array_relationship_name("comment"), "comments");
    assert_eq!(derive_array_relationship_name("category"), "categories");
    assert_eq!(derive_array_relationship_name("ox"), "oxen");
}

#[test]
fn track_table_request_is_driver_qualified() {
    let op = TrackTable::pg(TrackTableArgs {
        source: "default".to_owned(),
        table: table("public", "users"),
    });
    assert_eq!(op.request_type, "pg_track_table");
    assert_eq!(op.args.source, "default");
    assert!(op.args.table == table("public", "users"));
}

#[test]
fn bulk_envelope_keeps_operation_order() {
    let first = TrackTable::pg(TrackTableArgs {
        source: "default".to_owned(),
        table: table("public", "a"),
    });
    let second = TrackTable::pg(TrackTableArgs {
        source: "default".to_owned(),
        table: table("public", "b"),
    });
    let bulk = BulkRequest::new(vec![first, second])
        .unwrap_or_else(|_| panic!("two operations are something to do"));
    assert_eq!(bulk.request_type, "bulk");
    assert_eq!(bulk.args.len(), 2);
    assert_eq!(bulk.args[0].args.table.name, "a");
    assert_eq!(bulk.args[1].args.table.name, "b");
}

#[test]
fn empty_bulk_envelope_is_never_built() {
    let r = BulkRequest::<TrackTable>::new(Vec::new());
    match r {
        Err(HasuraUtilsError::Other(msg)) => {
            assert_eq!(msg, "Nothing to do: the bulk request is empty");
        }
        _ => panic!("wrapping an empty operations list must fail before any network call"),
    }
}

#[test]
fn fully_tracked_tables_are_nothing_to_do() {
    let m = snapshot_tracking("default", vec![table("public", "users")]);
    let r = track_all_tables_request(&m, vec![table("public", "users")], "default");
    match r {
        Err(HasuraUtilsError::Other(msg)) => {
            assert_eq!(msg, "Database has no untracked tables");
        }
        _ => panic!("an empty diff must be reported, never wrapped into a bulk call"),
    }
}

#[test]
fn untracked_tables_become_one_bulk_request() {
    let m = snapshot_tracking("default", vec![table("public", "users")]);
    let discovered = vec![table("public", "users"), table("public", "orders")];
    let bulk = track_all_tables_request(&m, discovered, "default")
        .unwrap_or_else(|_| panic!("one table is untracked"));
    assert_eq!(bulk.request_type, "bulk");
    assert_eq!(bulk.args.len(), 1);
    assert_eq!(bulk.args[0].request_type, "pg_track_table");
    assert!(bulk.args[0].args.table == table("public", "orders"));
}

#[test]
fn fully_tracked_relationships_are_nothing_to_do() {
    let mut orders_entry = TableEntry {
        table: table("public", "orders"),
        object_relationships: Vec::new(),
        array_relationships: Vec::new(),
    };
    orders_entry.object_relationships.push(ObjectRelationships {
        name: "customer".to_owned(),
        using: ObjRelUsing { foreign_key_constraint_on: "customer_id".to_owned() },
    });
    let mut customers_entry = TableEntry {
        table: table("public", "customers"),
        object_relationships: Vec::new(),
        array_relationships: Vec::new(),
    };
    customers_entry.array_relationships.push(ArrayRelationships {
        name: "orders".to_owned(),
        using: ArrayRelUsing {
            foreign_key_constraint_on: ArrayRelUsingFKeyOn {
                column: "customer_id".to_owned(),
                table: table("public", "orders"),
            },
        },
    });
    let m = Metadata {
        version: 3,
        sources: vec![MetadataSource {
            name: "default".to_owned(),
            kind: None,
            tables: vec![orders_entry, customers_entry],
            functions: None,
        }],
    };
    let edges = vec![SQLFKRelationship {
        table_name: "orders".to_owned(),
        table_schema: "public".to_owned(),
        constraint_name: "orders_customer_id_fkey".to_owned(),
        ref_table_schema: "public".to_owned(),
        ref_table_name: "customers".to_owned(),
        column_mapping: vec![("customer_id".to_owned(), "id".to_owned())],
    }];
    let r = track_all_relationships_request(&m, &edges, "default");
    match r {
        Err(HasuraUtilsError::Other(msg)) => {
            assert_eq!(msg, "Database has no untracked relationships");
        }
        _ => panic!("an empty diff must be reported, never wrapped into a bulk call"),
    }
}

#[test]
fn single_table_request_or_already_tracked() {
    let m = snapshot_tracking("default", vec![table("public", "users")]);
    assert!(track_table_request(&m, table("public", "users"), "default").is_none());
    let op = track_table_request(&m, table("public", "orders"), "default")
        .unwrap_or_else(|| panic!("the table is untracked"));
    assert_eq!(op.request_type, "pg_track_table");
    assert_eq!(op.args.source, "default");
    assert!(op.args.table == table("public", "orders"));
}

#[test]
fn health_states_from_probe_bodies() {
    assert!(health_from_response("OK") == HGEHealth::Healthy);
    assert!(health_from_response("ERROR") == HGEHealth::Error);
    assert!(health_from_response("OKAY") == HGEHealth::Inconsistent);
    assert!(health_from_response("") == HGEHealth::Inconsistent);
}

#[test]
fn run_sql_wrapper_is_read_only_over_the_source() {
    let env = EnvVars {
        source: "default".to_owned(),
        driver: "pg".to_owned(),
        metadata_url: "http://localhost:8080/v1/metadata".to_owned(),
        query_url: "http://localhost:8080/v2/query".to_owned(),
        admin_secret: "not-a-real-secret".to_owned(),
        healthz: "http://localhost:8080/healthz".to_owned(),
    };
    let q = env.getRunSQL("SELECT 1;");
    assert_eq!(q.request_type, "run_sql");
    assert_eq!(q.args.source, "default");
    assert_eq!(q.args.sql, "SELECT 1;");
    assert!(!q.args.cascade);
    assert!(q.args.read_only);
}

#[test]
fn default_run_sql_is_empty_and_read_only() {
    let q = RunSQL::default();
    assert_eq!(q.request_type, "run_sql");
    assert_eq!(q.args.source, "default");
    assert_eq!(q.args.sql, "");
    assert!(!q.args.cascade);
    assert!(q.args.read_only);
}

#[test]
fn only_the_pg_driver_is_supported() {
    assert!(is_supported_driver("pg"));
    assert!(!is_supported_driver("mysql"));
    assert!(!is_supported_driver(""));
}

#[test]
fn all_tables_sql_lists_base_tables_outside_catalogs() {
    let sql = getAllTablesSql();
    assert!(sql.contains("information_schema.tables"));
    assert!(sql.contains("table_type = 'BASE TABLE'"));
    assert!(sql.contains("'pg_catalog'"));
}

#[test]
fn other_error_converts_into_the_taxonomy() {
    let e: HasuraUtilsError = OtherError("nothing to do").into();
    match e {
        HasuraUtilsError::Other(msg) => assert_eq!(msg, "nothing to do"),
        _ => panic!("a static message converts to the Other variant"),
    }
}
