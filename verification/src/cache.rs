//! The directory cache: the cache-aside protocol, as a step machine.
//!
//! Every cache read or write and every upstream fetch is blocking network
//! I/O that the unverified boundary performs; this module owns every
//! decision between those calls.  A `List` request runs in at most three
//! steps: the boundary reads the directory key and hands the outcome to
//! [`DirectoryCache::on_read`]; on a miss it fetches from the upstream
//! client exactly once and hands the outcome to
//! [`DirectoryCache::on_fetch`], which yields the single store command to
//! attempt; it performs that write and hands the outcome to
//! [`DirectoryCache::finish_miss`], which returns the fetched directory
//! whether or not the write succeeded.  A health probe is one write of the
//! sentinel value, judged by [`DirectoryCache::health_result`].
//!
//! Concurrent `List` calls that all miss may each fetch and each write the
//! same key — accepted thundering-herd behavior: the writes carry the same
//! TTL and semantically equivalent data, and the last writer wins.

use vstd::prelude::*;

use crate::codec::{dec_directory, decode_directory, enc_directory, encode_directory,
    lemma_directory_round_trip};
use crate::device::{DeviceView, Devices};
use crate::error::DeviceRepoError;

verus! {

/// The two well-known keys this cache owns in the backend's namespace.
#[derive(Debug, PartialEq, Eq, Clone, Copy)]
pub enum CacheKey {
    /// Holds the encoded device directory, written with the configured TTL.
    Directory,
    /// Holds the health-probe sentinel.
    Health,
}

/// What the boundary observed when reading the directory key.
#[derive(Debug)]
pub enum ReadOutcome {
    /// The key was present with this payload.
    Found(Vec<char>),
    /// The backend answered and the key was absent (never stored, or its
    /// TTL expired — the backend guarantees expired keys are simply absent).
    Absent,
    /// The backend was unreachable.
    Unreachable(String),
    /// The backend was reachable but the read itself failed.
    Failed(String),
}

/// What the boundary observed when fetching from the upstream client.
#[derive(Debug)]
pub enum FetchOutcome {
    /// The upstream call returned this directory.
    Fetched(Devices),
    /// The upstream call failed.
    Failed(String),
}

/// What the boundary observed when writing a key.
#[derive(Debug)]
pub enum WriteOutcome {
    /// The write succeeded.
    Written,
    /// The backend was unreachable.
    Unreachable(String),
    /// The backend was reachable but the write itself failed.
    Failed(String),
}

/// The decision after reading the directory key.
#[derive(Debug)]
pub enum ListStep {
    /// Hit: serve this directory; the upstream client is not called.
    Serve(Devices),
    /// Miss: call the upstream client's fetch operation, exactly once.
    FetchUpstream,
    /// The call fails with this error; the upstream client is not called.
    Fail(DeviceRepoError),
}

/// One write for the boundary to attempt against the cache backend.
#[derive(Debug)]
pub struct StoreCommand {
    pub key: CacheKey,
    pub payload: Vec<char>,
    pub ttl_seconds: usize,
}

/// The decision after the upstream fetch on a miss.
#[derive(Debug)]
pub enum FetchStep {
    /// Attempt this one write, then return this directory.
    Store(StoreCommand, Devices),
    /// The fetch failed: the call fails with this error.
    Fail(DeviceRepoError),
}

/// The directory cache's configuration: every entry it writes under the
/// directory key carries this TTL.
#[derive(Debug, PartialEq, Eq, Clone, Copy)]
pub struct DirectoryCache {
    pub ttl_seconds: usize,
}

impl DirectoryCache {
    /// A cache that stores directory entries with the given TTL.
    pub fn new(ttl_seconds: usize) -> (c: DirectoryCache)
        ensures
            c.ttl_seconds == ttl_seconds,
    {
        DirectoryCache { ttl_seconds }
    }

    /// The cache-aside decision after reading the directory key.
    ///
    /// A present, well-formed payload is served as it decodes; a present
    /// payload that does not decode is a hard serialization error, never
    /// treated as a miss; only an absent key falls through to the upstream
    /// fetch; an unreachable backend or a failed read is a hard error, with
    /// no silent bypass to the upstream client.
    pub fn on_read(&self, r: ReadOutcome) -> (s: ListStep)
        ensures
            (s is FetchUpstream) <==> (r is Absent),
            match r {
                ReadOutcome::Found(p) => match dec_directory(p@) {
                    Some(ds) => s matches ListStep::Serve(d) && d@ == ds,
                    None => s == ListStep::Fail(DeviceRepoError::Serialization),
                },
                ReadOutcome::Absent => s == ListStep::FetchUpstream,
                ReadOutcome::Unreachable(c) => s == ListStep::Fail(
                    DeviceRepoError::Connection(c),
                ),
                ReadOutcome::Failed(c) => s == ListStep::Fail(DeviceRepoError::GetKey(c)),
            },
    {
        match r {
            ReadOutcome::Found(p) => match decode_directory(&p) {
                Some(d) => ListStep::Serve(d),
                None => ListStep::Fail(DeviceRepoError::Serialization),
            },
            ReadOutcome::Absent => ListStep::FetchUpstream,
            ReadOutcome::Unreachable(c) => ListStep::Fail(DeviceRepoError::Connection(c)),
            ReadOutcome::Failed(c) => ListStep::Fail(DeviceRepoError::GetKey(c)),
        }
    }

    /// The decision after the upstream fetch on a miss.
    ///
    /// A fetched directory yields exactly one store command — its encoding
    /// under the directory key with the configured TTL — and is what the
    /// call returns; a failed fetch is propagated with the upstream kind.
    pub fn on_fetch(&self, f: FetchOutcome) -> (s: FetchStep)
        ensures
            match f {
                FetchOutcome::Fetched(d) => s matches FetchStep::Store(cmd, out) && cmd.key
                    == CacheKey::Directory && cmd.payload@ == enc_directory(d@)
                    && cmd.ttl_seconds == self.ttl_seconds && out == d,
                FetchOutcome::Failed(c) => s == FetchStep::Fail(DeviceRepoError::Upstream(c)),
            },
    {
        match f {
            FetchOutcome::Fetched(d) => {
                let payload = encode_directory(&d);
                FetchStep::Store(
                    StoreCommand {
                        key: CacheKey::Directory,
                        payload,
                        ttl_seconds: self.ttl_seconds,
                    },
                    d,
                )
            },
            FetchOutcome::Failed(c) => FetchStep::Fail(DeviceRepoError::Upstream(c)),
        }
    }

    /// The end of a miss: the freshly fetched directory is returned whatever
    /// became of the cache write.  A failed write is reported beside the
    /// result so the boundary can log it, never surfaced as a call failure:
    /// the cache is a performance optimization, not a correctness dependency.
    pub fn finish_miss(&self, fetched: Devices, w: WriteOutcome) -> (r: (
        Devices,
        Option<DeviceRepoError>,
    ))
        ensures
            r.0 == fetched,
            match w {
                WriteOutcome::Written => r.1 is None,
                WriteOutcome::Unreachable(c) => r.1 == Some(DeviceRepoError::Connection(c)),
                WriteOutcome::Failed(c) => r.1 == Some(DeviceRepoError::SetKey(c)),
            },
    {
        match w {
            WriteOutcome::Written => (fetched, None),
            WriteOutcome::Unreachable(c) => (fetched, Some(DeviceRepoError::Connection(c))),
            WriteOutcome::Failed(c) => (fetched, Some(DeviceRepoError::SetKey(c))),
        }
    }

    /// The single write a health probe attempts: the fixed sentinel value
    /// under the health key.
    pub fn health_command(&self) -> (c: (CacheKey, String))
        ensures
            c.0 == CacheKey::Health,
            c.1@ == "hello"@,
    {
        (CacheKey::Health, String::from_str("hello"))
    }

    /// A health probe succeeds exactly when the sentinel write succeeded;
    /// any failure is reported, never swallowed.
    pub fn health_result(&self, w: WriteOutcome) -> (r: Result<(), DeviceRepoError>)
        ensures
            (r is Ok) <==> (w is Written),
            match w {
                WriteOutcome::Written => r is Ok,
                WriteOutcome::Unreachable(c) => r == Err::<(), DeviceRepoError>(
                    DeviceRepoError::Connection(c),
                ),
                WriteOutcome::Failed(c) => r == Err::<(), DeviceRepoError>(
                    DeviceRepoError::HealthCheck(c),
                ),
            },
    {
        match w {
            WriteOutcome::Written => Ok(()),
            WriteOutcome::Unreachable(c) => Err(DeviceRepoError::Connection(c)),
            WriteOutcome::Failed(c) => Err(DeviceRepoError::HealthCheck(c)),
        }
    }
}

/// Law — cache hit path: the payload that `on_fetch` stores for a directory
/// decodes to exactly that directory, so a later hit on it serves the stored
/// directory unchanged (and, by `on_read`'s contract, a hit never steps to
/// the upstream fetch).
pub proof fn lemma_hit_serves_stored_directory(ds: Seq<DeviceView>)
    ensures
        dec_directory(enc_directory(ds)) == Some(ds),
{
    lemma_directory_round_trip(ds);
}

/// Law — idempotence: two consecutive `List` calls within the TTL window
/// with no intervening upstream change return equal directories.  The first
/// call misses, fetches `ds`, stores `enc_directory(ds)` and returns `ds`;
/// the second call hits that entry and serves its decoding, which is `ds`
/// again.
pub proof fn lemma_consecutive_lists_agree(ds: Seq<DeviceView>)
    ensures
        match dec_directory(enc_directory(ds)) {
            Some(served) => served == ds,
            None => false,
        },
{
    lemma_directory_round_trip(ds);
}

} // verus!
