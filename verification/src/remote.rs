//! The live passes: the bulk-set and bulk-get operations run against a real
//! store over an open client connection. Each per-key exchange goes through a
//! thin trusted wrapper; what the server answers depends on the remote store,
//! so the contracts here state only what holds of every outcome, and the
//! counting around the exchanges is verified.

use vstd::prelude::*;

use crate::dataset::Dataset;

verus! {

/// An open, exclusively owned connection to the remote store.
#[verifier::external_type_specification]
#[verifier::external_body]
pub struct ExConnection(redis::Connection);

/// The client library's error for any store communication failure.
#[verifier::external_type_specification]
#[verifier::external_body]
pub struct ExRedisError(redis::RedisError);

/// Relies on redis::Commands::set: issues `SET key value` to the server
/// behind the connection and returns its acknowledgement. Whether the write
/// is acknowledged depends on the remote store, so nothing more is stated.
#[verifier::external_body]
fn store_set(conn: &mut redis::Connection, key: &str, value: &str) -> Result<(), redis::RedisError> {
    redis::Commands::set::<&str, &str, ()>(conn, key, value)
}

/// Relies on redis::Commands::get: issues `GET key` to the server behind the
/// connection and returns the stored value, or `None` when the key is
/// absent. What the server holds depends on the remote store, so nothing
/// more is stated.
#[verifier::external_body]
fn store_get(conn: &mut redis::Connection, key: &str) -> Result<Option<String>, redis::RedisError> {
    redis::Commands::get::<&str, Option<String>>(conn, key)
}

/// The bulk-set pass against the remote store: writes every dataset entry in
/// order, counting the writes the server acknowledged, and aborts at the
/// first communication failure, which it returns with no partial count. On
/// success the count equals the dataset size; an empty dataset issues no
/// write and always succeeds.
pub fn redis_set(data: &Dataset, conn: &mut redis::Connection) -> (r: Result<
    usize,
    redis::RedisError,
>)
    ensures
        r matches Ok(c) ==> c == data@.len(),
        data@.len() == 0 ==> (r matches Ok(c) && c == 0),
{
    let n = data.len();
    let mut count: usize = 0;
    let mut i: usize = 0;
    while i < n
        invariant
            i <= n,
            n == data@.len(),
            count == i,
        decreases n - i,
    {
        let e = data.entry(i);
        match store_set(conn, e.0.as_str(), e.1.as_str()) {
            Ok(_) => {},
            Err(err) => {
                return Err(err);
            },
        }
        count = count + 1;
        i = i + 1;
    }
    Ok(count)
}

/// The bulk-get pass against the remote store: reads every dataset key in
/// order, counting the reads that found a value present; an absent key does
/// not count and does not fail the pass. Aborts at the first communication
/// failure, which it returns with no partial count. The count never exceeds
/// the dataset size; how many keys the server holds is the remote store's
/// affair. An empty dataset issues no read and always succeeds.
pub fn redis_get(data: &Dataset, conn: &mut redis::Connection) -> (r: Result<
    usize,
    redis::RedisError,
>)
    ensures
        r matches Ok(c) ==> c <= data@.len(),
        data@.len() == 0 ==> (r matches Ok(c) && c == 0),
{
    let n = data.len();
    let mut count: usize = 0;
    let mut i: usize = 0;
    while i < n
        invariant
            i <= n,
            n == data@.len(),
            count <= i,
        decreases n - i,
    {
        let e = data.entry(i);
        match store_get(conn, e.0.as_str()) {
            Ok(found) => {
                if found.is_some() {
                    count = count + 1;
                }
            },
            Err(err) => {
                return Err(err);
            },
        }
        i = i + 1;
    }
    Ok(count)
}

} // verus!
