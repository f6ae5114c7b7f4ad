//! The counter store's client: opening it from the configured Redis URI.
//! Opening only checks and parses the URI; connecting is done by the service.
use vstd::prelude::*;
use redis::{Client, RedisError};

verus! {

#[verifier::external_type_specification]
#[verifier::external_body]
pub struct ExRedisClient(Client);

#[verifier::external_type_specification]
#[verifier::external_body]
pub struct ExRedisError(RedisError);

/// Whether `redis::Client::open` accepts `uri` as a connection URL.
pub uninterp spec fn redis_url_accepted(uri: Seq<char>) -> bool;

/// `redis::Client::open` on a URL text: parses it into connection settings
/// without connecting; fails exactly on the URLs it does not accept, among them
/// the empty text.
#[verifier::external_body]
fn open_redis_client(uri: String) -> (res: Result<Client, RedisError>)
    ensures
        res is Ok <==> redis_url_accepted(uri@),
        uri@.len() == 0 ==> res is Err,
{
    Client::open(uri)
}

/// Why the counter store could not be opened.
pub enum StoreError {
    /// The Redis URI is not a connection URL the client accepts.
    InvalidUri(RedisError),
}

/// The Redis client for the counter store at `uri` (the `redis_uri` setting),
/// ready to connect; refused exactly when the URI is not accepted.
pub fn open_counter_store(uri: String) -> (res: Result<Client, StoreError>)
    ensures
        res is Ok <==> redis_url_accepted(uri@),
        uri@.len() == 0 ==> res is Err,
{
    match open_redis_client(uri) {
        Ok(client) => Ok(client),
        Err(e) => Err(StoreError::InvalidUri(e)),
    }
}

} // verus!
