//! Result-set model and the gateway contract to a query backend.
//!
//! Every value that reaches the core is already stringified by the gateway;
//! the core never re-parses a payload. The backend itself (connection
//! handling, type mapping) lives outside the library and is reached only
//! through the [`Queryable`] trait.

use vstd::prelude::*;

verus! {

/// The closed set of value categories a gateway may tag a cell with.
/// A backend type outside the mapping must arrive as `Text` with a sentinel
/// string, never as a failure of the whole row.
#[derive(Clone, Copy, PartialEq, Eq, Structural, Debug)]
pub enum DBResultKind {
    Text,
    Number,
    Boolean,
    Timestamp,
}

/// One cell of a result row: the column it belongs to, its pre-stringified
/// value, and the category the gateway assigned.
#[derive(Clone, Debug)]
pub struct DBResult {
    pub column_name: String,
    pub value: String,
    pub kind: DBResultKind,
}

/// One row of a result set, in column order.
pub type ResultRow = Vec<DBResult>;

/// The rows produced by exactly one query execution, possibly empty.
pub type ResultSet = Vec<ResultRow>;

/// A failure reported by the gateway. It aborts only the query that caused
/// it; the session keeps running.
#[derive(Clone, Debug)]
pub enum QueryError {
    /// The backend could not be reached.
    ConnectionFailure(String),
    /// The backend rejected or failed the query.
    QueryFailure(String),
}

impl QueryError {
    /// The human-readable message carried by either failure.
    pub fn message(&self) -> (r: &String)
        ensures
            r@ == self.message_spec(),
    {
        match self {
            QueryError::ConnectionFailure(m) => m,
            QueryError::QueryFailure(m) => m,
        }
    }

    /// The message of either failure, as the sequence of its characters.
    pub open spec fn message_spec(self) -> Seq<char> {
        match self {
            QueryError::ConnectionFailure(m) => m@,
            QueryError::QueryFailure(m) => m@,
        }
    }
}

/// The abstract capability to execute one query and get back typed rows or a
/// structured failure. The core treats it as opaque and synchronous; the
/// concrete backend implements it outside the library.
pub trait Queryable {
    fn query(&mut self, q: String, args: Vec<String>) -> Result<ResultSet, QueryError>;
}

} // verus!
