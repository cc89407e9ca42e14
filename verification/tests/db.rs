use kyrie::db::{ConnectReport, Database, DatabaseConfig, Statement, PROBE_QUERY};
use kyrie::errors::DatabaseError;
use kyrie::guard::{StoreFailure, TimeSpan};

fn config() -> DatabaseConfig {
    DatabaseConfig {
        url: String::from("postgres://localhost/app"),
        max_connections: 5,
        connect_timeout: TimeSpan::from_secs(3),
    }
}

fn database() -> Database {
    Database::connect(&config(), ConnectReport::Ready).unwrap()
}

#[test]
fn connect_keeps_the_pool_size() {
    assert_eq!(database().max_connections(), 5);
}

#[test]
fn connect_surfaces_each_stage() {
    assert_eq!(
        Database::connect(&config(), ConnectReport::BadOptions(String::from("bad url"))),
        Err(DatabaseError::ConnectionError(String::from("bad url")))
    );
    assert_eq!(
        Database::connect(&config(), ConnectReport::PoolFailed(String::from("refused"))),
        Err(DatabaseError::ConnectionError(String::from("refused")))
    );
    assert_eq!(
        Database::connect(&config(), ConnectReport::ProbeFailed),
        Err(DatabaseError::ConnectionTimeout)
    );
}

#[test]
fn a_pool_of_no_connections_is_not_opened() {
    let mut empty = config();
    empty.max_connections = 0;
    let refused = DatabaseError::ConnectionError(String::from(
        "the pool must hold at least one connection",
    ));
    assert_eq!(empty.pool_size().unwrap_err(), refused);
    assert_eq!(Database::connect(&empty, ConnectReport::EmptyPool).unwrap_err(), refused);
    assert_eq!(Database::connect(&empty, ConnectReport::Ready).unwrap_err(), refused);
    assert_eq!(Database::connect(&config(), ConnectReport::EmptyPool).unwrap_err(), refused);
    assert_eq!(
        Database::connect(&empty, ConnectReport::BadOptions(String::from("bad url"))),
        Err(DatabaseError::ConnectionError(String::from("bad url")))
    );
    assert_eq!(config().pool_size(), Ok(5));
    let mut one = config();
    one.max_connections = 1;
    assert_eq!(one.pool_size(), Ok(1));
    assert_eq!(Database::connect(&one, ConnectReport::Ready).unwrap().max_connections(), 1);
}

#[test]
fn parameters_are_bound_in_order() {
    let statement = Statement::new("insert into t values ($1, $2, $3)")
        .bind(10)
        .bind(20)
        .bind(30);
    assert_eq!(statement.query(), "insert into t values ($1, $2, $3)");
    assert_eq!(statement.params(), &vec![10, 20, 30]);
    let all = Statement::bind_all("insert into t values ($1, $2, $3)", vec![10, 20, 30]);
    assert_eq!(all, statement);
    let none: Statement<i64> = Statement::new("select 1");
    assert_eq!(none.query(), "select 1");
    assert!(none.params().is_empty());
}

#[test]
fn execute_reports_the_rows_affected() {
    let db = database();
    assert_eq!(db.execute(Ok(3)), Ok(3));
    assert_eq!(db.execute(Ok(0)), Ok(0));
    assert_eq!(
        db.execute(Err(StoreFailure::Command(String::from("syntax error")))),
        Err(DatabaseError::CommandError(String::from("syntax error")))
    );
    assert_eq!(
        db.execute(Err(StoreFailure::Connection(String::from("pool closed")))),
        Err(DatabaseError::ConnectionError(String::from("pool closed")))
    );
}

#[test]
fn fetch_one_wants_exactly_one_row() {
    let db = database();
    assert_eq!(db.fetch_one(Ok(vec![Ok(7)])), Ok(7));
    assert_eq!(
        db.fetch_one::<i32>(Ok(vec![])),
        Err(DatabaseError::CommandError(String::from(
            "no rows returned by a query that expected to return exactly one row"
        )))
    );
    assert_eq!(
        db.fetch_one(Ok(vec![Ok(7), Ok(8)])),
        Err(DatabaseError::CommandError(String::from(
            "more than one row returned by a query that expected to return exactly one row"
        )))
    );
    assert_eq!(
        db.fetch_one(Ok(vec![Ok(7), Ok(8), Ok(9)])),
        Err(DatabaseError::CommandError(String::from(
            "more than one row returned by a query that expected to return exactly one row"
        )))
    );
}

#[test]
fn fetch_one_surfaces_failures() {
    let db = database();
    assert_eq!(
        db.fetch_one::<i32>(Ok(vec![Err(String::from("column 0 is no integer"))])),
        Err(DatabaseError::CommandError(String::from("column 0 is no integer")))
    );
    assert_eq!(
        db.fetch_one::<i32>(Err(StoreFailure::Command(String::from("no such table")))),
        Err(DatabaseError::CommandError(String::from("no such table")))
    );
    assert_eq!(
        db.fetch_one::<i32>(Err(StoreFailure::Connection(String::from("timed out")))),
        Err(DatabaseError::ConnectionError(String::from("timed out")))
    );
}

#[test]
fn fetch_all_keeps_the_order_of_rows() {
    let db = database();
    assert_eq!(
        db.fetch_all(Ok(vec![Ok("a"), Ok("b"), Ok("c"), Ok("d")])),
        Ok(vec!["a", "b", "c", "d"])
    );
    assert_eq!(db.fetch_all(Ok(vec![Ok(1)])), Ok(vec![1]));
    assert_eq!(db.fetch_all::<i32>(Ok(vec![])), Ok(vec![]));
}

#[test]
fn fetch_all_aborts_on_the_first_row_that_does_not_map() {
    let db = database();
    assert_eq!(
        db.fetch_all(Ok(vec![
            Ok(1),
            Err(String::from("first")),
            Ok(3),
            Err(String::from("second")),
        ])),
        Err(DatabaseError::CommandError(String::from("first")))
    );
    assert_eq!(
        db.fetch_all(Ok(vec![Ok(1), Ok(2), Err(String::from("last"))])),
        Err(DatabaseError::CommandError(String::from("last")))
    );
    assert_eq!(
        db.fetch_all::<i32>(Ok(vec![Err(String::from("only"))])),
        Err(DatabaseError::CommandError(String::from("only")))
    );
}

#[test]
fn fetch_all_surfaces_failures() {
    let db = database();
    assert_eq!(
        db.fetch_all::<i32>(Err(StoreFailure::Command(String::from("no such table")))),
        Err(DatabaseError::CommandError(String::from("no such table")))
    );
    assert_eq!(
        db.fetch_all::<i32>(Err(StoreFailure::Connection(String::from("timed out")))),
        Err(DatabaseError::ConnectionError(String::from("timed out")))
    );
}

#[test]
fn the_probe_is_a_trivial_query() {
    assert_eq!(PROBE_QUERY, "SELECT 1");
}

#[test]
fn check_connection_swallows_the_failure() {
    let db = database();
    assert!(db.check_connection(Ok(())));
    assert!(!db.check_connection(Err(StoreFailure::Command(String::from("x")))));
    assert!(!db.check_connection(Err(StoreFailure::Connection(String::from("y")))));
}

#[test]
fn database_error_messages() {
    assert_eq!(
        DatabaseError::ConnectionError(String::from("refused")).message(),
        "Connection Error: refused"
    );
    assert_eq!(
        DatabaseError::CommandError(String::from("syntax error")).message(),
        "Command error: syntax error"
    );
    assert_eq!(DatabaseError::ConnectionTimeout.message(), "Connection timeout");
    assert_eq!(
        DatabaseError::TransactionError(String::from("aborted")).message(),
        "Transaction error: aborted"
    );
}

#[test]
fn begin_transaction_hands_the_transaction_on() {
    let db = database();
    assert_eq!(db.begin_transaction(Ok("tx-1")), Ok("tx-1"));
    assert_eq!(
        db.begin_transaction::<&str>(Err(StoreFailure::Connection(String::from("pool timed out")))),
        Err(DatabaseError::ConnectionError(String::from("pool timed out")))
    );
}
