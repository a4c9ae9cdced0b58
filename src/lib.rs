//! Query execution and result encoding for a relational store served over a
//! request/response interface.
use vstd::prelude::*;

pub mod batch;
pub mod encode;
pub mod executor;
pub mod mime;

verus! {

/// One result column: its name and, when its first non-null value could be
/// classified, a content type.
pub struct ColumnInfo {
    pub name: String,
    pub mime_type: Option<String>,
}

/// One value of a result cell, tagged by the store's native type.
pub enum CellValue {
    String(String),
    Integer(i64),
    /// A 64-bit IEEE-754 number, held as its bit pattern (`f64::to_bits`).
    Float(u64),
    Blob(Vec<u8>),
    Null,
}

/// The outcome of a whole batch.
pub struct QueryResults {
    /// Wall-clock time of the whole batch, in microseconds.
    pub execution_time_us: u64,
    /// One result per statement, in input order.
    pub results: Vec<QueryResult>,
}

/// The outcome of one statement.
pub struct QueryResult {
    /// Rows changed by a write; 0 for a read.
    pub num_affected: usize,
    pub columns: Vec<ColumnInfo>,
    /// The rows of a read, each with one cell per column; empty for a write.
    pub rows: Vec<Vec<CellValue>>,
}

/// One SQL statement with its positional text parameters.
pub struct Query {
    pub sql: String,
    pub params: Vec<String>,
}

/// An ordered list of statements, run in one transaction or one by one.
pub struct Request {
    pub queries: Vec<Query>,
    pub run_in_transaction: bool,
}

/// A store that runs a batch of statements.
pub trait Queryable {
    fn query(&self, run_in_transaction: bool, queries: &[Query]) -> Result<
        QueryResults,
        batch::BatchError,
    >;
}

/// Shared state of the service: the store it queries.
pub struct DBState<Q> {
    pub query: Q,
}

} // verus!
