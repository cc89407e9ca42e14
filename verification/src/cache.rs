//! The cache facade: which command each operation issues, and what each
//! reply means.
//!
//! An operation is one command on one connection. The caller checks the
//! connection out, runs the command under the deadline guard, hands the
//! connection back and reports what the guard saw.

use vstd::prelude::*;
use vstd::string::StringSliceAdditionalSpecFns;
use r2d2_redis::redis::{Cmd, RedisError};
use r2d2_redis::RedisConnectionManager;
use crate::wire::{
    cmd_words, decimal, manager_for, named, push_bytes, push_number, redis_error_text,
};
use crate::codec::{decode_text, encode_text, fits_length_prefix, packed_text, unpacked_text};
use crate::errors::{CacheError, CacheErrorView};
use crate::guard::{Outcome, StoreFailure, TimeSpan};

verus! {

/// One command for the key/value store. Keys and values are encoded bytes.
#[derive(Debug, PartialEq, Eq)]
pub enum CacheCommand {
    /// Point lookup of a key.
    Lookup { key: Vec<u8> },
    /// Store a value under a key, to expire after so many milliseconds.
    Store { key: Vec<u8>, value: Vec<u8>, expiry_millis: u64 },
    /// Remove a key.
    Remove { key: Vec<u8> },
}

/// The mathematical value of a [`CacheCommand`].
pub enum CommandView {
    Lookup { key: Seq<u8> },
    Store { key: Seq<u8>, value: Seq<u8>, expiry_millis: u64 },
    Remove { key: Seq<u8> },
}

impl View for CacheCommand {
    type V = CommandView;

    open spec fn view(&self) -> CommandView {
        match self {
            CacheCommand::Lookup { key } => CommandView::Lookup { key: key@ },
            CacheCommand::Store { key, value, expiry_millis } => CommandView::Store {
                key: key@,
                value: value@,
                expiry_millis: *expiry_millis,
            },
            CacheCommand::Remove { key } => CommandView::Remove { key: key@ },
        }
    }
}

impl CommandView {
    /// The words that go to the store: the command's name, then its
    /// arguments. A stored entry always carries its expiry, in
    /// milliseconds.
    pub open spec fn words(self) -> Seq<Seq<u8>> {
        match self {
            CommandView::Lookup { key } => seq!["GET".spec_bytes(), key],
            CommandView::Store { key, value, expiry_millis } => seq![
                "SET".spec_bytes(),
                key,
                value,
                "PX".spec_bytes(),
                decimal(expiry_millis as nat),
            ],
            CommandView::Remove { key } => seq!["DEL".spec_bytes(), key],
        }
    }
}

impl CacheCommand {
    /// The command in the driver's form, ready to be issued.
    pub fn to_cmd(&self) -> (cmd: Cmd)
        ensures
            cmd_words(cmd) == self@.words(),
    {
        match self {
            CacheCommand::Lookup { key } => {
                let mut cmd = named("GET");
                push_bytes(&mut cmd, key.as_slice());
                assert(cmd_words(cmd) =~= self@.words());
                cmd
            },
            CacheCommand::Store { key, value, expiry_millis } => {
                let mut cmd = named("SET");
                push_bytes(&mut cmd, key.as_slice());
                push_bytes(&mut cmd, value.as_slice());
                push_bytes(&mut cmd, "PX".as_bytes());
                push_number(&mut cmd, *expiry_millis);
                assert(cmd_words(cmd) =~= self@.words());
                cmd
            },
            CacheCommand::Remove { key } => {
                let mut cmd = named("DEL");
                push_bytes(&mut cmd, key.as_slice());
                assert(cmd_words(cmd) =~= self@.words());
                cmd
            },
        }
    }
}

/// The expiry sent to the store for a time-to-live: its whole milliseconds,
/// or the largest expiry there is where they are more than that. So no
/// entry is ever given less time than asked for, but for the part of a
/// millisecond.
pub open spec fn expiry_of(ttl: TimeSpan) -> u64 {
    if ttl.spec_millis() > u64::MAX {
        u64::MAX
    } else {
        ttl.spec_millis() as u64
    }
}

/// The message of a cache that was asked for with a pool of no connections.
pub open spec fn empty_pool_message() -> Seq<char> {
    "the pool must hold at least one connection"@
}

/// The error that a store failure surfaces as.
pub open spec fn failure_error(failure: StoreFailure) -> CacheErrorView {
    match failure {
        StoreFailure::Connection(m) => CacheErrorView::ConnectionError(m@),
        StoreFailure::Command(m) => CacheErrorView::RedisError(m@),
    }
}

/// Whether `res` is what the guard's observation `outcome` amounts to.
pub open spec fn settles<T>(outcome: Outcome<T>, res: Result<T, CacheError>) -> bool {
    match outcome {
        Outcome::Elapsed | Outcome::Aborted => res matches Err(e) && e@ == CacheErrorView::Timeout,
        Outcome::Returned(Err(failure)) => res matches Err(e) && e@ == failure_error(failure),
        Outcome::Returned(Ok(value)) => res == Ok::<T, CacheError>(value),
    }
}

/// Turns what the guard observed into the operation's result: a deadline
/// that elapsed, or a worker that was lost, is a timeout; a store failure
/// is the matching error; a value is passed on.
pub fn settle<T>(outcome: Outcome<T>) -> (res: Result<T, CacheError>)
    ensures
        settles(outcome, res),
{
    match outcome {
        Outcome::Elapsed => Err(CacheError::Timeout),
        Outcome::Aborted => Err(CacheError::Timeout),
        Outcome::Returned(Err(StoreFailure::Connection(m))) => Err(CacheError::ConnectionError(m)),
        Outcome::Returned(Err(StoreFailure::Command(m))) => Err(CacheError::RedisError(m)),
        Outcome::Returned(Ok(value)) => Ok(value),
    }
}

/// The lookup command for an encoded key.
pub fn lookup(key: Vec<u8>) -> (command: CacheCommand)
    ensures
        command@ == (CommandView::Lookup { key: key@ }),
{
    CacheCommand::Lookup { key }
}

/// The store-with-expiry command for an encoded key and value.
pub fn store(key: Vec<u8>, value: Vec<u8>, ttl: TimeSpan) -> (command: CacheCommand)
    ensures
        command@ == (CommandView::Store { key: key@, value: value@, expiry_millis: expiry_of(ttl) }),
{
    let millis: u128 = ttl.as_millis();
    let expiry_millis: u64 = if millis > 0xffff_ffff_ffff_ffff {
        u64::MAX
    } else {
        millis as u64
    };
    CacheCommand::Store { key, value, expiry_millis }
}

/// The removal command for an encoded key.
pub fn removal(key: Vec<u8>) -> (command: CacheCommand)
    ensures
        command@ == (CommandView::Remove { key: key@ }),
{
    CacheCommand::Remove { key }
}

/// A cache over one key/value store: its sizing and its time bounds.
#[derive(Debug, PartialEq, Eq)]
pub struct RedisCache {
    redis_url: String,
    max_connections: u32,
    default_ttl: TimeSpan,
    operation_timeout: TimeSpan,
}

impl Clone for RedisCache {
    fn clone(&self) -> (copy: RedisCache)
        ensures
            copy == *self,
    {
        proof {
            use_type_invariant(self);
        }
        RedisCache {
            redis_url: self.redis_url.clone(),
            max_connections: self.max_connections,
            default_ttl: self.default_ttl,
            operation_timeout: self.operation_timeout,
        }
    }
}

impl RedisCache {
    /// The pool holds at least one connection.
    #[verifier::type_invariant]
    pub closed spec fn wf(&self) -> bool {
        self.max_connections >= 1
    }

    /// The connection string of the store.
    pub closed spec fn spec_redis_url(&self) -> Seq<char> {
        self.redis_url@
    }

    /// The most connections that may be checked out at once.
    pub closed spec fn spec_max_connections(&self) -> u32 {
        self.max_connections
    }

    /// The time-to-live of entries stored without one.
    pub closed spec fn spec_default_ttl(&self) -> TimeSpan {
        self.default_ttl
    }

    /// The deadline of one operation.
    pub closed spec fn spec_operation_timeout(&self) -> TimeSpan {
        self.operation_timeout
    }

    /// Whether the cache has exactly these settings.
    pub open spec fn has_settings(
        &self,
        redis_url: Seq<char>,
        max_connections: u32,
        default_ttl: TimeSpan,
        operation_timeout: TimeSpan,
    ) -> bool {
        &&& self.spec_redis_url() == redis_url
        &&& self.spec_max_connections() == max_connections
        &&& self.spec_default_ttl() == default_ttl
        &&& self.spec_operation_timeout() == operation_timeout
    }

    /// A cache for the store whose connection string the driver has read.
    /// Where the driver did not accept the string, a connection error with
    /// the driver's message; where the pool is to hold no connection, a
    /// connection error; otherwise the cache with the given settings,
    /// together with the driver's reading of the string, from which the
    /// pool is built.
    pub fn opened(
        verdict: Result<RedisConnectionManager, RedisError>,
        redis_url: &str,
        max_connections: u32,
        default_ttl: TimeSpan,
        operation_timeout: TimeSpan,
    ) -> (res: Result<(RedisCache, RedisConnectionManager), CacheError>)
        ensures
            match verdict {
                Ok(manager) => if max_connections == 0 {
                    res matches Err(e) && e@ == CacheErrorView::ConnectionError(
                        empty_pool_message(),
                    )
                } else {
                    res matches Ok(pair) && pair.1 == manager && pair.0.has_settings(
                        redis_url@,
                        max_connections,
                        default_ttl,
                        operation_timeout,
                    )
                },
                Err(_) => res matches Err(e) && e@ is ConnectionError,
            },
    {
        match verdict {
            Ok(manager) => if max_connections == 0 {
                Err(
                    CacheError::ConnectionError(
                        String::from_str("the pool must hold at least one connection"),
                    ),
                )
            } else {
                Ok(
                    (
                        RedisCache {
                            redis_url: String::from_str(redis_url),
                            max_connections,
                            default_ttl,
                            operation_timeout,
                        },
                        manager,
                    ),
                )
            },
            Err(error) => Err(CacheError::ConnectionError(redis_error_text(&error))),
        }
    }

    /// A cache with the given store, pool size, default time-to-live and
    /// per-operation deadline, together with the driver's reading of the
    /// connection string. Nothing is opened. A connection string that the
    /// driver does not accept is a connection error, and so is a pool of no
    /// connections.
    pub fn new(
        redis_url: &str,
        max_connections: u32,
        default_ttl: TimeSpan,
        operation_timeout: TimeSpan,
    ) -> (res: Result<(RedisCache, RedisConnectionManager), CacheError>)
        ensures
            res matches Ok(pair) ==> max_connections >= 1 && pair.0.has_settings(
                redis_url@,
                max_connections,
                default_ttl,
                operation_timeout,
            ),
            res matches Err(e) ==> e@ is ConnectionError,
            max_connections == 0 ==> res is Err,
    {
        RedisCache::opened(
            manager_for(redis_url),
            redis_url,
            max_connections,
            default_ttl,
            operation_timeout,
        )
    }

    /// The connection string of the store.
    pub fn redis_url(&self) -> (url: &str)
        ensures
            url@ == self.spec_redis_url(),
    {
        self.redis_url.as_str()
    }

    /// The most connections that may be checked out at once: at least one.
    pub fn max_connections(&self) -> (max: u32)
        ensures
            max == self.spec_max_connections(),
            max >= 1,
    {
        proof {
            use_type_invariant(self);
        }
        self.max_connections
    }

    /// The time-to-live of entries stored without one.
    pub fn default_ttl(&self) -> (ttl: TimeSpan)
        ensures
            ttl == self.spec_default_ttl(),
    {
        self.default_ttl
    }

    /// The deadline of one operation.
    pub fn operation_timeout(&self) -> (deadline: TimeSpan)
        ensures
            deadline == self.spec_operation_timeout(),
    {
        self.operation_timeout
    }

    /// Whether a connection is validated each time it is checked out.
    /// Always so.
    pub fn test_on_check_out(&self) -> (test: bool)
        ensures
            test,
    {
        true
    }

    /// The command that looks a text key up: a lookup of the key's encoded
    /// bytes. The encoder refuses no text, so a command is always built.
    pub fn get(&self, key: &str) -> (res: Result<CacheCommand, CacheError>)
        ensures
            res matches Ok(command) && command@ == (CommandView::Lookup { key: packed_text(key@) }),
    {
        match encode_text(key) {
            Ok(bytes) => Ok(lookup(bytes)),
            Err(e) => Err(e),
        }
    }

    /// The command that stores a text value under a text key with the
    /// default time-to-live. The stored bytes decode to the value.
    pub fn set(&self, key: &str, value: &str) -> (res: Result<CacheCommand, CacheError>)
        ensures
            res matches Ok(command) && command@ == (CommandView::Store {
                key: packed_text(key@),
                value: packed_text(value@),
                expiry_millis: expiry_of(self.spec_default_ttl()),
            }),
            fits_length_prefix(value@) ==> unpacked_text(packed_text(value@)) == Some(value@),
    {
        self.set_with_ttl(key, value, self.default_ttl)
    }

    /// The command that stores a text value under a text key, to expire
    /// after `ttl`. The expiry is always explicit and never below the
    /// whole milliseconds of `ttl`: a span of more milliseconds than an
    /// expiry can hold is sent as the largest expiry. A span of less than
    /// one millisecond is sent as zero, which the store rejects. The stored
    /// bytes decode to the value.
    pub fn set_with_ttl(&self, key: &str, value: &str, ttl: TimeSpan) -> (res: Result<
        CacheCommand,
        CacheError,
    >)
        ensures
            res matches Ok(command) && command@ == (CommandView::Store {
                key: packed_text(key@),
                value: packed_text(value@),
                expiry_millis: expiry_of(ttl),
            }),
            fits_length_prefix(value@) ==> unpacked_text(packed_text(value@)) == Some(value@),
    {
        let key_bytes = match encode_text(key) {
            Ok(bytes) => bytes,
            Err(e) => { return Err(e); },
        };
        let value_bytes = match encode_text(value) {
            Ok(bytes) => bytes,
            Err(e) => { return Err(e); },
        };
        Ok(store(key_bytes, value_bytes, ttl))
    }

    /// The command that removes a text key.
    pub fn delete(&self, key: &str) -> (res: Result<CacheCommand, CacheError>)
        ensures
            res matches Ok(command) && command@ == (CommandView::Remove { key: packed_text(key@) }),
    {
        match encode_text(key) {
            Ok(bytes) => Ok(removal(bytes)),
            Err(e) => Err(e),
        }
    }

    /// What a lookup returns, given what the guard saw: the decoded text of
    /// the payload, `None` where the key is absent (which is no error), a
    /// deserialization error where the payload does not decode, and
    /// otherwise what [`settle`] makes of the observation.
    pub fn get_reply(&self, outcome: Outcome<Option<Vec<u8>>>) -> (res: Result<
        Option<String>,
        CacheError,
    >)
        ensures
            match outcome {
                Outcome::Returned(Ok(Some(payload))) => match unpacked_text(payload@) {
                    Some(text) => res matches Ok(Some(value)) && value@ == text,
                    None => res matches Err(e) && e@ is Deserialization,
                },
                Outcome::Returned(Ok(None)) => res matches Ok(None),
                Outcome::Returned(Err(failure)) => res matches Err(e) && e@ == failure_error(
                    failure,
                ),
                Outcome::Elapsed | Outcome::Aborted => res matches Err(e) && e@
                    == CacheErrorView::Timeout,
            },
    {
        match settle(outcome) {
            Ok(Some(payload)) => match decode_text(payload.as_slice()) {
                Ok(value) => Ok(Some(value)),
                Err(e) => Err(e),
            },
            Ok(None) => Ok(None),
            Err(e) => Err(e),
        }
    }

    /// What a store-with-expiry returns, given what the guard saw.
    pub fn set_reply(&self, outcome: Outcome<()>) -> (res: Result<(), CacheError>)
        ensures
            settles(outcome, res),
    {
        settle(outcome)
    }

    /// What a removal returns, given what the guard saw. The store reports
    /// how many keys it removed; removal succeeds whatever that number is,
    /// so removing an absent key is no error.
    pub fn delete_reply(&self, outcome: Outcome<u64>) -> (res: Result<(), CacheError>)
        ensures
            match outcome {
                Outcome::Returned(Ok(removed)) => res is Ok,
                Outcome::Returned(Err(failure)) => res matches Err(e) && e@ == failure_error(
                    failure,
                ),
                Outcome::Elapsed | Outcome::Aborted => res matches Err(e) && e@
                    == CacheErrorView::Timeout,
            },
    {
        match settle(outcome) {
            Ok(_) => Ok(()),
            Err(e) => Err(e),
        }
    }
}

} // verus!
