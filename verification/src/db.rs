//! The relational facade: statements with positional parameters, and what
//! each reply of the store means.
//!
//! The caller runs a [`Statement`] on a pooled connection and maps each
//! returned row to its record type; the facade decides what the operation
//! returns.

use vstd::prelude::*;
use crate::errors::{DatabaseError, DatabaseErrorView};
use crate::guard::{StoreFailure, TimeSpan};

verus! {

/// The statement of the liveness probe: a trivial round trip.
pub const PROBE_QUERY: &'static str = "SELECT 1";

/// How to reach and size the relational store's pool.
#[derive(Debug, Clone, PartialEq, Eq)]
pub struct DatabaseConfig {
    /// The connection string, with the store's own options.
    pub url: String,
    /// The most connections that may be checked out at once.
    pub max_connections: u32,
    /// How long a checkout may wait for a free connection.
    pub connect_timeout: TimeSpan,
}

/// A query text and the parameters bound to its placeholders, in
/// placeholder order.
#[derive(Debug, PartialEq, Eq)]
pub struct Statement<P> {
    query: String,
    params: Vec<P>,
}

impl<P> Statement<P> {
    /// The query text, passed to the store unaltered.
    pub closed spec fn spec_query(&self) -> Seq<char> {
        self.query@
    }

    /// The bound parameters, first placeholder first.
    pub closed spec fn spec_params(&self) -> Seq<P> {
        self.params@
    }

    /// A statement with nothing bound yet.
    pub fn new(query: &str) -> (statement: Statement<P>)
        ensures
            statement.spec_query() == query@,
            statement.spec_params() == Seq::<P>::empty(),
    {
        Statement { query: String::from_str(query), params: Vec::new() }
    }

    /// Binds one more parameter, to the next placeholder.
    pub fn bind(self, param: P) -> (statement: Statement<P>)
        ensures
            statement.spec_query() == self.spec_query(),
            statement.spec_params() == self.spec_params().push(param),
    {
        let mut params = self.params;
        params.push(param);
        Statement { query: self.query, params }
    }

    /// A statement with all of `params` bound in their order.
    pub fn bind_all(query: &str, params: Vec<P>) -> (statement: Statement<P>)
        ensures
            statement.spec_query() == query@,
            statement.spec_params() == params@,
    {
        Statement { query: String::from_str(query), params }
    }

    /// The query text.
    pub fn query(&self) -> (query: &str)
        ensures
            query@ == self.spec_query(),
    {
        self.query.as_str()
    }

    /// The bound parameters, first placeholder first.
    pub fn params(&self) -> (params: &Vec<P>)
        ensures
            params@ == self.spec_params(),
    {
        &self.params
    }
}

/// The error that a store failure surfaces as.
pub open spec fn failure_error(failure: StoreFailure) -> DatabaseErrorView {
    match failure {
        StoreFailure::Connection(m) => DatabaseErrorView::ConnectionError(m@),
        StoreFailure::Command(m) => DatabaseErrorView::CommandError(m@),
    }
}

/// The message of a fetch for one row that matched none.
pub open spec fn no_rows_message() -> Seq<char> {
    "no rows returned by a query that expected to return exactly one row"@
}

/// The message of a fetch for one row that matched several.
pub open spec fn too_many_rows_message() -> Seq<char> {
    "more than one row returned by a query that expected to return exactly one row"@
}

/// Whether every row up to `end` was mapped to a record.
pub open spec fn all_mapped<R>(rows: Seq<Result<R, String>>, end: int) -> bool {
    forall|j: int| 0 <= j < end && j < rows.len() ==> (#[trigger] rows[j]) is Ok
}

/// The message of a pool that was asked for with no connections.
pub open spec fn empty_pool_message() -> Seq<char> {
    "the pool must hold at least one connection"@
}

impl DatabaseConfig {
    /// The size of the pool to open: the configured one, or a connection
    /// error where the pool would hold no connection. To be asked before
    /// the pool is opened.
    pub fn pool_size(&self) -> (res: Result<u32, DatabaseError>)
        ensures
            self.max_connections == 0 ==> (res matches Err(e) && e@
                == DatabaseErrorView::ConnectionError(empty_pool_message())),
            self.max_connections >= 1 ==> res == Ok::<u32, DatabaseError>(self.max_connections),
    {
        if self.max_connections == 0 {
            Err(
                DatabaseError::ConnectionError(
                    String::from_str("the pool must hold at least one connection"),
                ),
            )
        } else {
            Ok(self.max_connections)
        }
    }
}

/// How far opening the store got.
#[derive(Debug, PartialEq, Eq)]
pub enum ConnectReport {
    /// The connection string was refused.
    BadOptions(String),
    /// The pool was not opened, because it was to hold no connection.
    EmptyPool,
    /// The pool could not be opened.
    PoolFailed(String),
    /// The pool opened, but no connection could be checked out.
    ProbeFailed,
    /// A connection was checked out and handed back.
    Ready,
}

/// A relational store that was reached.
#[derive(Debug, Clone, Copy, PartialEq, Eq)]
pub struct Database {
    max_connections: u32,
}

fn surfaced(failure: StoreFailure) -> (error: DatabaseError)
    ensures
        error@ == failure_error(failure),
{
    match failure {
        StoreFailure::Connection(m) => DatabaseError::ConnectionError(m),
        StoreFailure::Command(m) => DatabaseError::CommandError(m),
    }
}

impl Database {
    /// The pool holds at least one connection.
    #[verifier::type_invariant]
    pub closed spec fn wf(&self) -> bool {
        self.max_connections >= 1
    }

    /// The most connections that may be checked out at once.
    pub closed spec fn spec_max_connections(&self) -> u32 {
        self.max_connections
    }

    /// The most connections that may be checked out at once: at least one.
    pub fn max_connections(&self) -> (max: u32)
        ensures
            max == self.spec_max_connections(),
            max >= 1,
    {
        proof {
            use_type_invariant(self);
        }
        self.max_connections
    }

    /// The store for `config`, once opening it got as far as `report`
    /// says. A refused connection string, a pool of no connections and a
    /// pool that did not open are connection errors; a pool that opened but
    /// gave no connection is a connection timeout.
    pub fn connect(config: &DatabaseConfig, report: ConnectReport) -> (res: Result<
        Database,
        DatabaseError,
    >)
        ensures
            match report {
                ConnectReport::BadOptions(m) => res matches Err(e) && e@
                    == DatabaseErrorView::ConnectionError(m@),
                ConnectReport::EmptyPool => res matches Err(e) && e@
                    == DatabaseErrorView::ConnectionError(empty_pool_message()),
                ConnectReport::PoolFailed(m) => res matches Err(e) && e@
                    == DatabaseErrorView::ConnectionError(m@),
                ConnectReport::ProbeFailed => res matches Err(e) && e@
                    == DatabaseErrorView::ConnectionTimeout,
                ConnectReport::Ready => if config.max_connections == 0 {
                    res matches Err(e) && e@ == DatabaseErrorView::ConnectionError(
                        empty_pool_message(),
                    )
                } else {
                    res matches Ok(db) && db.spec_max_connections() == config.max_connections
                },
            },
    {
        match report {
            ConnectReport::BadOptions(m) => Err(DatabaseError::ConnectionError(m)),
            ConnectReport::EmptyPool => Err(
                DatabaseError::ConnectionError(
                    String::from_str("the pool must hold at least one connection"),
                ),
            ),
            ConnectReport::PoolFailed(m) => Err(DatabaseError::ConnectionError(m)),
            ConnectReport::ProbeFailed => Err(DatabaseError::ConnectionTimeout),
            ConnectReport::Ready => match config.pool_size() {
                Ok(max_connections) => Ok(Database { max_connections }),
                Err(e) => Err(e),
            },
        }
    }

    /// What executing a statement returns: the number of rows it affected,
    /// or the store's failure.
    pub fn execute(&self, reply: Result<u64, StoreFailure>) -> (res: Result<u64, DatabaseError>)
        ensures
            match reply {
                Ok(rows_affected) => res == Ok::<u64, DatabaseError>(rows_affected),
                Err(failure) => res matches Err(e) && e@ == failure_error(failure),
            },
    {
        match reply {
            Ok(rows_affected) => Ok(rows_affected),
            Err(failure) => Err(surfaced(failure)),
        }
    }

    /// What fetching one row returns. The query must have matched exactly
    /// one row: none, or more than one, is a command error, and so is a
    /// row that could not be mapped. No row is ever made up or dropped.
    pub fn fetch_one<R>(&self, reply: Result<Vec<Result<R, String>>, StoreFailure>) -> (res: Result<
        R,
        DatabaseError,
    >)
        ensures
            match reply {
                Ok(rows) => if rows@.len() == 0 {
                    res matches Err(e) && e@ == DatabaseErrorView::CommandError(no_rows_message())
                } else if rows@.len() > 1 {
                    res matches Err(e) && e@ == DatabaseErrorView::CommandError(
                        too_many_rows_message(),
                    )
                } else {
                    match rows@[0] {
                        Ok(record) => res == Ok::<R, DatabaseError>(record),
                        Err(m) => res matches Err(e) && e@ == DatabaseErrorView::CommandError(m@),
                    }
                },
                Err(failure) => res matches Err(e) && e@ == failure_error(failure),
            },
    {
        match reply {
            Ok(rows) => {
                let mut rows = rows;
                let found: usize = rows.len();
                match rows.pop() {
                    None => Err(
                        DatabaseError::CommandError(
                            String::from_str(
                                "no rows returned by a query that expected to return exactly one row",
                            ),
                        ),
                    ),
                    Some(row) => if found > 1 {
                        Err(
                            DatabaseError::CommandError(
                                String::from_str(
                                    "more than one row returned by a query that expected to return exactly one row",
                                ),
                            ),
                        )
                    } else {
                        match row {
                            Ok(record) => Ok(record),
                            Err(m) => Err(DatabaseError::CommandError(m)),
                        }
                    },
                }
            },
            Err(failure) => Err(surfaced(failure)),
        }
    }

    /// What fetching all rows returns: every row's record, in the order the
    /// store returned them, where every row was mapped; otherwise a command
    /// error with the message of the first row that was not, and no partial
    /// list.
    pub fn fetch_all<R>(&self, reply: Result<Vec<Result<R, String>>, StoreFailure>) -> (res: Result<
        Vec<R>,
        DatabaseError,
    >)
        ensures
            match reply {
                Ok(rows) => {
                    &&& all_mapped(rows@, rows@.len() as int) ==> (res matches Ok(records)
                        && records@.len() == rows@.len() && forall|i: int|
                        0 <= i < rows@.len() ==> rows@[i] == Ok::<R, String>(#[trigger] records@[i]))
                    &&& forall|i: int|
                        0 <= i < rows@.len() && (#[trigger] rows@[i]) is Err && all_mapped(rows@, i)
                            ==> (res matches Err(e) && e@ == DatabaseErrorView::CommandError(
                            rows@[i]->Err_0@,
                        ))
                },
                Err(failure) => res matches Err(e) && e@ == failure_error(failure),
            },
    {
        let mut rest = match reply {
            Ok(rows) => rows,
            Err(failure) => { return Err(surfaced(failure)); },
        };
        let ghost rows = rest@;
        let mut failure: Option<String> = None;
        let ghost mut failed_at: int = rows.len() as int;
        let mut backwards: Vec<R> = Vec::new();
        while rest.len() > 0
            invariant
                rest@ == rows.subrange(0, rest@.len() as int),
                rest@.len() <= rows.len(),
                rest@.len() <= failed_at <= rows.len(),
                forall|j: int| rest@.len() <= j < failed_at ==> (#[trigger] rows[j]) is Ok,
                match failure {
                    Some(m) => failed_at < rows.len() && rows[failed_at] is Err
                        && rows[failed_at]->Err_0@ == m@,
                    None => failed_at == rows.len() && backwards@.len() == rows.len() - rest@.len()
                        && forall|k: int|
                        0 <= k < backwards@.len() ==> rows[rows.len() - 1 - k] == Ok::<R, String>(
                            #[trigger] backwards@[k],
                        ),
                },
            decreases rest@.len(),
        {
            let ghost at: int = rest@.len() - 1;
            let row = rest.pop();
            assert(row == Some(rows[at]));
            match row {
                Some(Ok(record)) => {
                    backwards.push(record);
                },
                Some(Err(m)) => {
                    failure = Some(m);
                    proof {
                        failed_at = at;
                    }
                },
                None => {},
            }
        }
        if let Some(m) = failure {
            return Err(DatabaseError::CommandError(m));
        }
        let ghost turned = backwards@;
        let mut records: Vec<R> = Vec::new();
        while backwards.len() > 0
            invariant
                turned.len() == rows.len(),
                backwards@ == turned.subrange(0, backwards@.len() as int),
                backwards@.len() <= turned.len(),
                records@.len() == turned.len() - backwards@.len(),
                forall|i: int|
                    0 <= i < records@.len() ==> turned[turned.len() - 1 - i] == #[trigger] records@[i],
            decreases backwards@.len(),
        {
            let ghost at: int = backwards@.len() - 1;
            let record = backwards.pop();
            assert(record == Some(turned[at]));
            if let Some(r) = record {
                records.push(r);
            }
        }
        assert forall|i: int| 0 <= i < rows.len() implies rows[i] == Ok::<R, String>(
            #[trigger] records@[i],
        ) by {
            assert(turned[turned.len() - 1 - i] == records@[i]);
            assert(rows[rows.len() - 1 - (rows.len() - 1 - i)] == Ok::<R, String>(
                turned[rows.len() - 1 - i],
            ));
        }
        Ok(records)
    }

    /// What beginning a transaction returns: the transaction, which holds
    /// its connection until it is committed or rolled back, or the store's
    /// failure.
    pub fn begin_transaction<T>(&self, reply: Result<T, StoreFailure>) -> (res: Result<
        T,
        DatabaseError,
    >)
        ensures
            match reply {
                Ok(transaction) => res == Ok::<T, DatabaseError>(transaction),
                Err(failure) => res matches Err(e) && e@ == failure_error(failure),
            },
    {
        match reply {
            Ok(transaction) => Ok(transaction),
            Err(failure) => Err(surfaced(failure)),
        }
    }

    /// Whether the store answered a trivial round trip. A liveness probe:
    /// any failure is `false`, whatever its kind.
    pub fn check_connection(&self, probe: Result<(), StoreFailure>) -> (alive: bool)
        ensures
            alive == probe is Ok,
    {
        probe.is_ok()
    }
}

} // verus!
