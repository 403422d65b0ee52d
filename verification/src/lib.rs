//! Keeps a GraphQL data layer's tracked-object metadata in step with the
//! relational schema of the backing database.
//!
//! The library detects tables and foreign-key-derived relationships that
//! exist in the database but are not yet registered with the data layer,
//! and builds the minimal set of registration operations to close that gap:
//!
//! - [`metadata`] holds the metadata snapshot model and the reconciler that
//!   computes the untracked-table and untracked-relationship diffs.
//! - [`types`] holds the wire-shaped operation descriptors (track table,
//!   create object/array relationship) and the bulk envelope around them.
//! - [`sql`] holds the introspection query text.
//! - [`env`] holds the run-time configuration and the `run_sql` query wrapper.
//! - [`error`] holds the failure taxonomy.
//! - [`util`] holds the health-probe classification and the pure pipeline
//!   steps that turn fetched facts into submission-ready requests.
//!
//! Transport, credential loading and argument parsing are left to callers.

pub mod env;
pub mod error;
pub mod metadata;
pub mod sql;
pub mod types;
pub mod util;
