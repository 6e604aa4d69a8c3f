//! The key directory cache: an initialize-once state machine for the
//! process-wide key set.
//!
//! The cache holds at most one key set, populated lazily by the first
//! caller and never invalidated afterwards. Exactly one caller is told
//! to perform the outbound fetch; every caller that asks while that
//! fetch is outstanding is told to wait for its result, so no second
//! fetch is ever begun while one is in flight. A failed fetch is held,
//! and every caller observes that one fetch's error: the cache never
//! retries on its own, and a retry happens only through an explicit
//! caller-driven reset.

use vstd::prelude::*;

use crate::errors::KeyDirectoryError;
use crate::keys::parse_key_set_document;
use crate::keys::spec_key_set_document;
use crate::keys::KeySet;

verus! {

/// The lifecycle of the cached key set.
#[derive(Debug, Clone)]
pub enum CacheState {
    /// No key set is cached and no fetch is outstanding.
    Empty,
    /// One caller is performing the fetch.
    Pending,
    /// The key set is cached for the rest of the process lifetime.
    Ready(KeySet),
    /// The one fetch failed; the error is held for every caller until
    /// an explicit reset.
    Failed(KeyDirectoryError),
}

/// What a caller must do after asking the cache for the key set.
#[derive(Debug, Clone, Copy, PartialEq, Eq, Structural)]
pub enum StartAction {
    /// This caller — and only this caller — performs the outbound
    /// fetch and reports its outcome with `complete`.
    BeginFetch,
    /// Another caller's fetch is outstanding; wait for its result.
    Wait,
    /// The key set is cached; read it with `current`.
    UseCached,
    /// The request is rejected without touching the network.
    Reject(KeyDirectoryError),
}

/// What the fetching caller observed from the key-source endpoint.
#[derive(Debug, Clone)]
pub enum FetchOutcome {
    /// The outbound request itself failed.
    TransportError,
    /// The endpoint answered with a non-success status.
    HttpFailure,
    /// The endpoint answered successfully with this body.
    Body(String),
}

/// The transition a call to `start` makes: the next state, and the
/// action the caller is told to take. A fetch is begun only from the
/// empty state with a configured source URL; a missing URL is rejected
/// as a configuration error without any network work; a held failure
/// is handed to every caller unchanged.
pub open spec fn spec_start_transition(pre: CacheState, have_url: bool) -> (CacheState,
    StartAction) {
    match pre {
        CacheState::Ready(_) => (pre, StartAction::UseCached),
        CacheState::Pending => (pre, StartAction::Wait),
        CacheState::Failed(e) => (pre, StartAction::Reject(e)),
        CacheState::Empty => if have_url {
            (CacheState::Pending, StartAction::BeginFetch)
        } else {
            (pre, StartAction::Reject(KeyDirectoryError::SourceNotConfigured))
        },
    }
}

/// How a fetch outcome is classified: a transport failure or
/// non-success response is a fetch failure; a success body that is not
/// a well-formed key-set document is a parse failure; otherwise the
/// parsed keys.
pub open spec fn spec_classify_fetch(o: FetchOutcome) -> Result<
    Seq<crate::keys::KeyDescriptor>,
    KeyDirectoryError,
> {
    match o {
        FetchOutcome::TransportError => Err(KeyDirectoryError::FetchFailed),
        FetchOutcome::HttpFailure => Err(KeyDirectoryError::FetchFailed),
        FetchOutcome::Body(s) => match spec_key_set_document(s@) {
            Some(keys) => Ok(keys),
            None => Err(KeyDirectoryError::ParseFailed),
        },
    }
}

/// The transition a call to `reset` makes: only a held failure is
/// cleared.
pub open spec fn spec_reset_transition(pre: CacheState) -> CacheState {
    match pre {
        CacheState::Failed(_) => CacheState::Empty,
        _ => pre,
    }
}

/// The process-wide key directory cache. One instance is shared by all
/// requests; its state changes only through `start`, `complete` and
/// `reset`.
#[derive(Debug)]
pub struct KeyDirectoryCache {
    state: CacheState,
}

impl View for KeyDirectoryCache {
    type V = CacheState;

    closed spec fn view(&self) -> CacheState {
        self.state
    }
}

impl KeyDirectoryCache {
    /// A fresh cache with nothing fetched.
    pub fn new() -> (c: Self)
        ensures
            c@ is Empty,
    {
        KeyDirectoryCache { state: CacheState::Empty }
    }

    /// Asks for the key set. `have_url` says whether the key-source
    /// URL is configured. The returned action tells this caller what
    /// to do; the transition is exactly `spec_start_transition`.
    pub fn start(&mut self, have_url: bool) -> (a: StartAction)
        ensures
            (final(self)@, a) == spec_start_transition(old(self)@, have_url),
    {
        match &self.state {
            CacheState::Ready(_) => StartAction::UseCached,
            CacheState::Pending => StartAction::Wait,
            CacheState::Failed(e) => StartAction::Reject(*e),
            CacheState::Empty => {
                if have_url {
                    self.state = CacheState::Pending;
                    StartAction::BeginFetch
                } else {
                    StartAction::Reject(KeyDirectoryError::SourceNotConfigured)
                }
            },
        }
    }

    /// Reports the outcome of the one outstanding fetch. A parsed key
    /// set is cached for the rest of the process lifetime; any failure
    /// is held, so that every caller — the waiting ones included —
    /// observes this one fetch's error and no second fetch begins.
    pub fn complete(&mut self, outcome: FetchOutcome) -> (r: Result<(), KeyDirectoryError>)
        requires
            old(self)@ is Pending,
        ensures
            match spec_classify_fetch(outcome) {
                Ok(keys) => final(self)@ matches CacheState::Ready(ks) && ks.keys@ == keys && r
                    == Ok::<(), KeyDirectoryError>(()),
                Err(e) => final(self)@ == CacheState::Failed(e) && r == Err::<
                    (),
                    KeyDirectoryError,
                >(e),
            },
    {
        match outcome {
            FetchOutcome::TransportError => {
                self.state = CacheState::Failed(KeyDirectoryError::FetchFailed);
                Err(KeyDirectoryError::FetchFailed)
            },
            FetchOutcome::HttpFailure => {
                self.state = CacheState::Failed(KeyDirectoryError::FetchFailed);
                Err(KeyDirectoryError::FetchFailed)
            },
            FetchOutcome::Body(s) => {
                match parse_key_set_document(s.as_str()) {
                    Some(keys) => {
                        self.state = CacheState::Ready(KeySet { keys });
                        Ok(())
                    },
                    None => {
                        self.state = CacheState::Failed(KeyDirectoryError::ParseFailed);
                        Err(KeyDirectoryError::ParseFailed)
                    },
                }
            },
        }
    }

    /// Clears a held failure, allowing a later caller to fetch again.
    /// Retry policy is the caller's alone: nothing in the library (and
    /// nothing in the request path) calls this. A cached key set and
    /// an outstanding fetch are untouched.
    pub fn reset(&mut self)
        ensures
            final(self)@ == spec_reset_transition(old(self)@),
    {
        match &self.state {
            CacheState::Failed(_) => {
                self.state = CacheState::Empty;
            },
            _ => {},
        }
    }

    /// The cached key set, once one is cached. Reading it performs no
    /// network work and never changes the cache.
    pub fn current(&self) -> (r: Option<&KeySet>)
        ensures
            match self@ {
                CacheState::Ready(ks) => r matches Some(k) && *k == ks,
                _ => r is None,
            },
    {
        match &self.state {
            CacheState::Ready(ks) => Some(ks),
            _ => None,
        }
    }
}

/// Idempotence after initialization: once the key set is cached, every
/// later request is answered from the cache — the state (and with it
/// the cached key set) never changes, and no fetch is ever begun.
pub proof fn lemma_ready_is_stable(ks: KeySet, have_url: bool)
    ensures
        spec_start_transition(CacheState::Ready(ks), have_url) == (
            CacheState::Ready(ks),
            StartAction::UseCached,
        ),
{
}

/// A fetch is begun only by the caller that finds the cache empty with
/// a configured URL, and it leaves the cache pending.
pub proof fn lemma_fetch_only_from_empty(pre: CacheState, have_url: bool)
    ensures
        spec_start_transition(pre, have_url).1 is BeginFetch ==> pre is Empty && have_url
            && spec_start_transition(pre, have_url).0 is Pending,
{
}

/// At-most-one-fetch: of any two consecutive requests with no fetch
/// outcome reported in between, at most the first is told to fetch, so
/// simultaneous first-time callers trigger exactly one outbound fetch.
pub proof fn lemma_at_most_one_fetch(pre: CacheState, h1: bool, h2: bool)
    ensures
        spec_start_transition(pre, h1).1 is BeginFetch ==> !(spec_start_transition(
            spec_start_transition(pre, h1).0,
            h2,
        ).1 is BeginFetch),
{
}

/// Failure broadcast: after the one fetch fails, every caller is told
/// that same held error, the state never changes, and no new fetch
/// begins until an explicit reset.
pub proof fn lemma_failure_is_broadcast(e: KeyDirectoryError, have_url: bool)
    ensures
        spec_start_transition(CacheState::Failed(e), have_url) == (
            CacheState::Failed(e),
            StartAction::Reject(e),
        ),
{
}

/// The state and the number of fetches begun by a run of requests,
/// one `start` per caller, with no fetch outcome reported in between.
pub open spec fn spec_run_starts(s: CacheState, calls: Seq<bool>) -> (CacheState, nat)
    decreases calls.len(),
{
    if calls.len() == 0 {
        (s, 0)
    } else {
        let first = spec_start_transition(s, calls[0]);
        let rest = spec_run_starts(first.0, calls.drop_first());
        (rest.0, rest.1 + if first.1 is BeginFetch {
            1nat
        } else {
            0nat
        })
    }
}

/// From any state but the empty one, a run of requests begins no fetch
/// and never moves the state: a cached key set keeps being served, an
/// outstanding fetch keeps being awaited, a held failure keeps being
/// handed out.
pub proof fn lemma_run_starts_stable(s: CacheState, calls: Seq<bool>)
    requires
        !(s is Empty),
    ensures
        spec_run_starts(s, calls) == (s, 0nat),
    decreases calls.len(),
{
    if calls.len() > 0 {
        lemma_run_starts_stable(spec_start_transition(s, calls[0]).0, calls.drop_first());
    }
}

/// N simultaneous first-time callers begin at most one outbound fetch,
/// however many they are and however they interleave: any run of
/// requests with no fetch outcome reported in between counts at most
/// one fetch.
pub proof fn lemma_n_callers_at_most_one_fetch(s: CacheState, calls: Seq<bool>)
    ensures
        spec_run_starts(s, calls).1 <= 1,
    decreases calls.len(),
{
    if calls.len() > 0 {
        let first = spec_start_transition(s, calls[0]);
        if first.1 is BeginFetch {
            lemma_run_starts_stable(first.0, calls.drop_first());
        } else {
            lemma_n_callers_at_most_one_fetch(first.0, calls.drop_first());
        }
    }
}

} // verus!
