//! The failure taxonomy shared by the cache and the relational facade.

use vstd::prelude::*;

verus! {

/// Why a cache operation failed. Text payloads carry the driver's message.
#[derive(Debug, PartialEq, Eq)]
pub enum CacheError {
    /// No connection could be had: the driver did not accept the
    /// connection string, the pool was to hold no connection, or the pool
    /// could not hand out a validated one.
    ConnectionError(String),
    /// The store rejected or failed to execute the command.
    RedisError(String),
    /// A key or value could not be encoded.
    Serialization(String),
    /// A stored payload could not be decoded.
    Deserialization(String),
    /// The deadline elapsed, or the worker was lost, before a reply came.
    Timeout,
}

/// The mathematical value of a [`CacheError`].
pub enum CacheErrorView {
    ConnectionError(Seq<char>),
    RedisError(Seq<char>),
    Serialization(Seq<char>),
    Deserialization(Seq<char>),
    Timeout,
}

impl View for CacheError {
    type V = CacheErrorView;

    open spec fn view(&self) -> CacheErrorView {
        match self {
            CacheError::ConnectionError(m) => CacheErrorView::ConnectionError(m@),
            CacheError::RedisError(m) => CacheErrorView::RedisError(m@),
            CacheError::Serialization(m) => CacheErrorView::Serialization(m@),
            CacheError::Deserialization(m) => CacheErrorView::Deserialization(m@),
            CacheError::Timeout => CacheErrorView::Timeout,
        }
    }
}

impl CacheErrorView {
    /// The text a user is shown for this error.
    pub open spec fn message(self) -> Seq<char> {
        match self {
            CacheErrorView::ConnectionError(m) => "Redis connection error: "@ + m,
            CacheErrorView::RedisError(m) => "Redis command error: "@ + m,
            CacheErrorView::Serialization(m) => "Serialization error: "@ + m,
            CacheErrorView::Deserialization(m) => "Deserialization error: "@ + m,
            CacheErrorView::Timeout => "Operation timeout"@,
        }
    }
}

impl CacheError {
    /// Renders the error as the text a user is shown.
    pub fn message(&self) -> (text: String)
        ensures
            text@ == self@.message(),
    {
        match self {
            CacheError::ConnectionError(m) => String::from_str("Redis connection error: ").concat(
                m.as_str(),
            ),
            CacheError::RedisError(m) => String::from_str("Redis command error: ").concat(
                m.as_str(),
            ),
            CacheError::Serialization(m) => String::from_str("Serialization error: ").concat(
                m.as_str(),
            ),
            CacheError::Deserialization(m) => String::from_str("Deserialization error: ").concat(
                m.as_str(),
            ),
            CacheError::Timeout => String::from_str("Operation timeout"),
        }
    }
}

/// Why a relational operation failed.
#[derive(Debug, PartialEq, Eq)]
pub enum DatabaseError {
    /// The pool or driver could not establish or validate a connection.
    ConnectionError(String),
    /// The store rejected the statement, or its result had the wrong shape.
    CommandError(String),
    /// No connection could be checked out before the acquire deadline.
    ConnectionTimeout,
    /// A transaction-scoped operation failed.
    TransactionError(String),
}

/// The mathematical value of a [`DatabaseError`].
pub enum DatabaseErrorView {
    ConnectionError(Seq<char>),
    CommandError(Seq<char>),
    ConnectionTimeout,
    TransactionError(Seq<char>),
}

impl View for DatabaseError {
    type V = DatabaseErrorView;

    open spec fn view(&self) -> DatabaseErrorView {
        match self {
            DatabaseError::ConnectionError(m) => DatabaseErrorView::ConnectionError(m@),
            DatabaseError::CommandError(m) => DatabaseErrorView::CommandError(m@),
            DatabaseError::ConnectionTimeout => DatabaseErrorView::ConnectionTimeout,
            DatabaseError::TransactionError(m) => DatabaseErrorView::TransactionError(m@),
        }
    }
}

impl DatabaseErrorView {
    /// The text a user is shown for this error.
    pub open spec fn message(self) -> Seq<char> {
        match self {
            DatabaseErrorView::ConnectionError(m) => "Connection Error: "@ + m,
            DatabaseErrorView::CommandError(m) => "Command error: "@ + m,
            DatabaseErrorView::ConnectionTimeout => "Connection timeout"@,
            DatabaseErrorView::TransactionError(m) => "Transaction error: "@ + m,
        }
    }
}

impl DatabaseError {
    /// Renders the error as the text a user is shown.
    pub fn message(&self) -> (text: String)
        ensures
            text@ == self@.message(),
    {
        match self {
            DatabaseError::ConnectionError(m) => String::from_str("Connection Error: ").concat(
                m.as_str(),
            ),
            DatabaseError::CommandError(m) => String::from_str("Command error: ").concat(
                m.as_str(),
            ),
            DatabaseError::ConnectionTimeout => String::from_str("Connection timeout"),
            DatabaseError::TransactionError(m) => String::from_str("Transaction error: ").concat(
                m.as_str(),
            ),
        }
    }
}

} // verus!
