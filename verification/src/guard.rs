//! The deadline guard's verdicts and the time spans they are measured in.
//!
//! The guard itself runs elsewhere: it races one blocking unit of work
//! (checkout of a connection plus one store command) against a deadline.
//! What it observed comes back as an [`Outcome`].

use vstd::prelude::*;

verus! {

/// Nanoseconds in one second.
pub const NANOS_PER_SEC: u32 = 1_000_000_000;

/// Nanoseconds in one millisecond.
pub const NANOS_PER_MILLI: u32 = 1_000_000;

/// Milliseconds in one second.
pub const MILLIS_PER_SEC: u128 = 1_000;

/// A non-negative span of time: whole seconds plus a sub-second part.
#[derive(Clone, Copy, Debug, PartialEq, Eq)]
pub struct TimeSpan {
    secs: u64,
    nanos: u32,
}

impl TimeSpan {
    /// The sub-second part is always less than one second.
    #[verifier::type_invariant]
    pub closed spec fn wf(self) -> bool {
        self.nanos < NANOS_PER_SEC
    }

    /// The whole seconds of the span.
    pub closed spec fn spec_secs(self) -> nat {
        self.secs as nat
    }

    /// The part of the span below one second, in nanoseconds.
    pub closed spec fn spec_subsec_nanos(self) -> nat {
        self.nanos as nat
    }

    /// The span in whole milliseconds, rounded down.
    pub open spec fn spec_millis(self) -> nat {
        self.spec_secs() * 1_000 + self.spec_subsec_nanos() / 1_000_000
    }

    /// Builds a span from seconds and nanoseconds. `None` when `nanos` is
    /// not below one second.
    pub fn new(secs: u64, nanos: u32) -> (span: Option<TimeSpan>)
        ensures
            nanos >= NANOS_PER_SEC <==> span is None,
            span matches Some(s) ==> s.spec_secs() == secs && s.spec_subsec_nanos() == nanos,
    {
        if nanos < NANOS_PER_SEC {
            Some(TimeSpan { secs, nanos })
        } else {
            None
        }
    }

    /// A span of whole seconds.
    pub fn from_secs(secs: u64) -> (span: TimeSpan)
        ensures
            span.spec_secs() == secs,
            span.spec_subsec_nanos() == 0,
    {
        TimeSpan { secs, nanos: 0 }
    }

    /// A span of whole milliseconds.
    pub fn from_millis(millis: u64) -> (span: TimeSpan)
        ensures
            span.spec_millis() == millis,
            span.spec_subsec_nanos() % 1_000_000 == 0,
    {
        let sub: u32 = (millis % 1_000) as u32;
        TimeSpan { secs: millis / 1_000, nanos: sub * NANOS_PER_MILLI }
    }

    /// The whole seconds of the span.
    pub fn secs(&self) -> (secs: u64)
        ensures
            secs == self.spec_secs(),
    {
        self.secs
    }

    /// The part of the span below one second, in nanoseconds.
    pub fn subsec_nanos(&self) -> (nanos: u32)
        ensures
            nanos == self.spec_subsec_nanos(),
            nanos < NANOS_PER_SEC,
    {
        proof {
            use_type_invariant(self);
        }
        self.nanos
    }

    /// The span in whole milliseconds, rounded down.
    pub fn as_millis(&self) -> (millis: u128)
        ensures
            millis == self.spec_millis(),
    {
        let whole: u128 = self.secs as u128;
        let part: u128 = (self.nanos / NANOS_PER_MILLI) as u128;
        whole * MILLIS_PER_SEC + part
    }
}

/// Why the store did not carry out a unit of work that ran to its end.
#[derive(Debug, PartialEq, Eq)]
pub enum StoreFailure {
    /// No validated connection could be had from the pool.
    Connection(String),
    /// The store rejected or failed to execute the command.
    Command(String),
}

/// What the guard observed of one blocking unit of work.
#[derive(Debug, PartialEq, Eq)]
pub enum Outcome<T> {
    /// The deadline elapsed first; the work may still complete unseen.
    Elapsed,
    /// The worker was lost before it returned.
    Aborted,
    /// The work returned in time with this result.
    Returned(Result<T, StoreFailure>),
}

} // verus!
