//! Threshold alerts: the record a user defines over one host's telemetry,
//! and the entry points that compile its lookup expression into an
//! aggregation statement.

use vstd::prelude::*;

use crate::errors::ApiError;
use crate::query::compile_lookup_query;
use crate::query::construct_query_result;
use crate::query::QueryType;

verus! {

/// A threshold alert. `lookup` holds the aggregation expression in the
/// stored grammar; `warn` and `crit` hold the boolean threshold expressions
/// evaluated against the query result; `where_clause` is an optional SQL
/// fragment appended verbatim to the compiled statement (and therefore
/// subject to the compiler's keyword gate). The owning customer id and the
/// target host are carried as plain text identifiers.
#[derive(Debug, Clone)]
pub struct Alerts {
    pub id: i64,
    pub active: bool,
    pub name: String,
    pub table: String,
    pub lookup: String,
    pub timing: i32,
    pub warn: String,
    pub crit: String,
    pub info: Option<String>,
    pub host_uuid: String,
    pub cid: String,
    pub hostname: String,
    pub where_clause: Option<String>,
}

/// The insertable shape of an alert: everything but the store-assigned id.
#[derive(Debug, Clone)]
pub struct AlertsDTO {
    pub active: Option<bool>,
    pub name: String,
    pub table: String,
    pub lookup: String,
    pub timing: i32,
    pub warn: String,
    pub crit: String,
    pub info: String,
    pub host_uuid: String,
    pub cid: String,
    pub hostname: String,
    pub where_clause: Option<String>,
}

/// A partial update of an alert: only the fields set to `Some` change.
#[derive(Debug, Clone, Default)]
pub struct AlertsDTOUpdate {
    pub active: Option<bool>,
    pub name: Option<String>,
    pub table: Option<String>,
    pub lookup: Option<String>,
    pub timing: Option<i32>,
    pub warn: Option<String>,
    pub crit: Option<String>,
    pub info: Option<String>,
    pub where_clause: Option<String>,
}

/// How many alerts a host carries, split by the active flag.
#[derive(Debug, Clone, Default)]
pub struct HttpAlertsCount {
    pub active: i64,
    pub inactive: i64,
    pub total: i64,
}

/// Compiling an alert-like record's lookup expression into its aggregation
/// statement. Implemented by the stored alert and by its insertable shape,
/// so a definition can be checked before it is stored.
pub trait AlertsQuery {
    /// The lookup expression the statement is compiled from.
    spec fn lookup_text(&self) -> Seq<char>;

    /// The table the statement reads.
    spec fn table_text(&self) -> Seq<char>;

    /// The optional filter fragment appended to the statement.
    spec fn where_text(&self) -> Option<Seq<char>>;

    /// The alert's name, used to label a keyword report.
    spec fn name_text(&self) -> Seq<char>;

    /// The target host, used to label a keyword report.
    spec fn host_uuid_text(&self) -> Seq<char>;

    /// Compiles the lookup over the table and filter into one parameterized
    /// aggregation statement tagged with its mode; see
    /// `construct_query_result` for the exact outcome, including both
    /// failure reports.
    fn construct_query(&self) -> (r: Result<(String, QueryType), ApiError>)
        ensures
            construct_query_result(
                self.lookup_text(),
                self.table_text(),
                self.where_text(),
                self.name_text(),
                self.host_uuid_text(),
                r,
            ),
    ;
}

impl AlertsQuery for Alerts {
    open spec fn lookup_text(&self) -> Seq<char> {
        self.lookup@
    }

    open spec fn table_text(&self) -> Seq<char> {
        self.table@
    }

    open spec fn where_text(&self) -> Option<Seq<char>> {
        self.where_clause.deep_view()
    }

    open spec fn name_text(&self) -> Seq<char> {
        self.name@
    }

    open spec fn host_uuid_text(&self) -> Seq<char> {
        self.host_uuid@
    }

    fn construct_query(&self) -> (r: Result<(String, QueryType), ApiError>) {
        compile_lookup_query(
            self.lookup.as_str(),
            self.table.as_str(),
            &self.where_clause,
            self.name.as_str(),
            self.host_uuid.as_str(),
        )
    }
}

impl AlertsQuery for AlertsDTO {
    open spec fn lookup_text(&self) -> Seq<char> {
        self.lookup@
    }

    open spec fn table_text(&self) -> Seq<char> {
        self.table@
    }

    open spec fn where_text(&self) -> Option<Seq<char>> {
        self.where_clause.deep_view()
    }

    open spec fn name_text(&self) -> Seq<char> {
        self.name@
    }

    open spec fn host_uuid_text(&self) -> Seq<char> {
        self.host_uuid@
    }

    fn construct_query(&self) -> (r: Result<(String, QueryType), ApiError>) {
        compile_lookup_query(
            self.lookup.as_str(),
            self.table.as_str(),
            &self.where_clause,
            self.name.as_str(),
            self.host_uuid.as_str(),
        )
    }
}

} // verus!
