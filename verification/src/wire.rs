//! The key/value store's driver: connection strings as it reads them, and
//! commands as it holds them, a name followed by arguments, each a string
//! of bytes.

use vstd::prelude::*;
use vstd::string::StringSliceAdditionalSpecFns;
use r2d2_redis::redis::{Cmd, RedisError};
use r2d2_redis::RedisConnectionManager;

verus! {

/// `redis::Cmd`, a command under construction. Opaque here; what it
/// holds is spoken of through [`cmd_words`].
#[verifier::external_type_specification]
#[verifier::external_body]
pub struct ExCmd(r2d2_redis::redis::Cmd);

/// `redis::RedisError`, the driver's failure. Opaque here.
#[verifier::external_type_specification]
#[verifier::external_body]
pub struct ExRedisError(r2d2_redis::redis::RedisError);

/// `r2d2_redis::RedisConnectionManager`, a connection string that the
/// driver has read. Opaque here.
#[verifier::external_type_specification]
#[verifier::external_body]
pub struct ExRedisConnectionManager(r2d2_redis::RedisConnectionManager);

/// Calls `r2d2_redis::RedisConnectionManager::new` on a connection string,
/// which parses it and opens nothing. Which strings the driver accepts
/// depends on the platform it was built for, so nothing is claimed of the
/// result.
#[verifier::external_body]
pub(crate) fn manager_for(url: &str) -> (res: Result<RedisConnectionManager, RedisError>) {
    RedisConnectionManager::new(url)
}

/// Renders a `redis::RedisError` through its `Display` impl. Nothing is
/// claimed of the text.
#[verifier::external_body]
pub(crate) fn redis_error_text(error: &RedisError) -> (text: String) {
    format!("{}", error)
}

/// The words of a driver command: its name, then its arguments in order.
pub uninterp spec fn cmd_words(cmd: Cmd) -> Seq<Seq<u8>>;

/// The decimal digits of a number, in ASCII, without leading zeros.
pub open spec fn decimal(n: nat) -> Seq<u8>
    decreases n,
{
    if n < 10 {
        seq![(48 + n) as u8]
    } else {
        decimal(n / 10).push((48 + n % 10) as u8)
    }
}

/// Calls `redis::cmd`. Claims that the new command holds one word, the
/// bytes of the name.
#[verifier::external_body]
pub(crate) fn named(name: &str) -> (cmd: Cmd)
    ensures
        cmd_words(cmd) == seq![name.spec_bytes()],
{
    r2d2_redis::redis::cmd(name)
}

/// Calls `redis::Cmd::arg` with a slice of bytes. Claims that the slice is
/// appended as one word and the words before it stay.
#[verifier::external_body]
pub(crate) fn push_bytes(cmd: &mut Cmd, word: &[u8])
    ensures
        cmd_words(*final(cmd)) == cmd_words(*old(cmd)).push(word@),
{
    cmd.arg(word);
}

/// Calls `redis::Cmd::arg` with a `u64`. Claims that the number's decimal
/// digits are appended as one word and the words before it stay.
#[verifier::external_body]
pub(crate) fn push_number(cmd: &mut Cmd, number: u64)
    ensures
        cmd_words(*final(cmd)) == cmd_words(*old(cmd)).push(decimal(number as nat)),
{
    cmd.arg(number);
}

} // verus!
