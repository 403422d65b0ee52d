//! Run-time configuration and the `run_sql` query wrapper.
//!
//! [`EnvVars`] carries the values a run needs: the logical source, the
//! driver tag, the service endpoints and the admin credential. Loading them
//! from the process environment, and building an HTTP client out of them,
//! is the caller's business; the library only holds the values and decides
//! which driver tags are supported.

use vstd::prelude::*;

use crate::types::str_eq;

verus! {

/// The configuration a run works with. All endpoints are full URLs; the
/// admin secret is sent as a request header by the caller's client.
pub struct EnvVars {
    pub source: String,
    pub driver: String,
    pub metadata_url: String,
    pub query_url: String,
    pub admin_secret: String,
    pub healthz: String,
}

/// A `run_sql` query against the data layer's query endpoint, ready for
/// wire serialization.
pub struct RunSQL {
    pub request_type: &'static str,
    pub args: RunSQLArgs,
}

/// Arguments of a `run_sql` query: the logical source, the SQL text, and
/// the cascade/read-only flags.
pub struct RunSQLArgs {
    pub source: String,
    pub sql: String,
    pub cascade: bool,
    pub read_only: bool,
}

impl Default for RunSQLArgs {
    /// The baseline query: source "default", empty SQL, no cascade,
    /// read-only.
    fn default() -> (r: Self)
        ensures
            r.source@ == "default"@,
            r.sql@ == Seq::<char>::empty(),
            r.cascade == false,
            r.read_only == true,
    {
        RunSQLArgs {
            source: "default".to_owned(),
            sql: String::new(),
            cascade: false,
            read_only: true,
        }
    }
}

impl Default for RunSQL {
    /// An empty `run_sql` request over the baseline arguments.
    fn default() -> (r: Self)
        ensures
            r.request_type@ == "run_sql"@,
            r.args.source@ == "default"@,
            r.args.sql@ == Seq::<char>::empty(),
            r.args.cascade == false,
            r.args.read_only == true,
    {
        RunSQL { request_type: "run_sql", args: RunSQLArgs::default() }
    }
}

/// The driver allow-list: only the fixed "pg" driver tag is supported.
pub fn is_supported_driver(driver: &str) -> (r: bool)
    ensures
        r == (driver@ == "pg"@),
{
    str_eq(driver, "pg")
}

impl EnvVars {
    /// The `run_sql` query that runs `sql` read-only against this
    /// configuration's logical source.
    #[allow(non_snake_case)]
    pub fn getRunSQL(&self, sql: &str) -> (r: RunSQL)
        ensures
            r.request_type@ == "run_sql"@,
            r.args.source@ == self.source@,
            r.args.sql@ == sql@,
            r.args.cascade == false,
            r.args.read_only == true,
    {
        RunSQL {
            request_type: "run_sql",
            args: RunSQLArgs {
                source: self.source.clone(),
                sql: sql.to_owned(),
                cascade: false,
                read_only: true,
            },
        }
    }
}

} // verus!
