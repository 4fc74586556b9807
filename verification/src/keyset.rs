//! The issuer's signing keys and the cache that holds them for an hour.

use crate::errors::{LambdaError, LambdaErrorView, ToLambdaError};
use crate::text::{first_where, lemma_first_where};
use vstd::prelude::*;
use vstd::string::StringExecFns;

verus! {

/// How long a fetched key set is served before it is fetched again, in
/// seconds.
pub const KEY_SET_TTL_SECS: u64 = 3600;

/// One public key of the issuer, as it is published: its identifier, its
/// algorithm, and modulus and exponent in URL-safe base64. What the
/// published entry lacks is `None`.
#[derive(Debug)]
pub struct SigningKey {
    pub kid: Option<String>,
    pub alg: Option<String>,
    pub n: Option<String>,
    pub e: Option<String>,
}

/// The issuer's current public keys.
#[derive(Debug)]
pub struct SigningKeySet {
    pub keys: Vec<SigningKey>,
}

/// Why a key set could not be had.
#[derive(Debug)]
pub enum FetchError {
    /// The request failed, with the reason.
    Network(String),
    /// The answer was no key set, with the reason.
    Parse(String),
    /// The answer held no key.
    Empty,
}

/// The text of a `FetchError`.
pub open spec fn fetch_error_text(e: FetchError) -> Seq<char> {
    match e {
        FetchError::Network(text) => "Failed to fetch JWKS: "@ + text@,
        FetchError::Parse(text) => "Failed to parse JWKS: "@ + text@,
        FetchError::Empty => "JWKS holds no key"@,
    }
}

impl FetchError {
    /// The text of this error.
    pub fn to_string(&self) -> (r: String)
        ensures
            r@ == fetch_error_text(*self),
    {
        match self {
            FetchError::Network(text) => "Failed to fetch JWKS: ".to_owned().concat(text.as_str()),
            FetchError::Parse(text) => "Failed to parse JWKS: ".to_owned().concat(text.as_str()),
            FetchError::Empty => "JWKS holds no key".to_owned(),
        }
    }
}

impl ToLambdaError for FetchError {
    /// An internal error with the text of this error.
    fn to_lambda_error(self) -> (r: LambdaError)
        ensures
            r@ == LambdaErrorView::InternalError(fetch_error_text(self)),
    {
        LambdaError::InternalError(self.to_string())
    }
}

/// Whether `key` is published under the identifier `kid`.
pub open spec fn has_key_id(key: SigningKey, kid: Seq<char>) -> bool {
    key.kid is Some && key.kid->0@ == kid
}

/// The index of the first key of `keys` that is published under `kid`, or
/// the length of `keys` if there is none.
pub open spec fn first_key(keys: Seq<SigningKey>, kid: Seq<char>) -> int {
    first_where(keys, |key: SigningKey| has_key_id(key, kid))
}

/// `first_key` is `at` when no key before `at` is published under `kid` and
/// `at` is the end or a key that is.
pub proof fn lemma_first_key(keys: Seq<SigningKey>, kid: Seq<char>, at: int)
    requires
        0 <= at <= keys.len(),
        forall|j: int| 0 <= j < at ==> !has_key_id(#[trigger] keys[j], kid),
        at == keys.len() || has_key_id(keys[at], kid),
    ensures
        first_key(keys, kid) == at,
{
    lemma_first_where(keys, |key: SigningKey| has_key_id(key, kid), at);
}

impl SigningKeySet {
    /// A key set without keys.
    pub fn new() -> (r: SigningKeySet)
        ensures
            r.keys@.len() == 0,
    {
        SigningKeySet { keys: Vec::new() }
    }

    /// The first key that is published under `kid`.
    pub fn find(&self, kid: &str) -> (r: Option<&SigningKey>)
        ensures
            match r {
                Some(key) => first_key(self.keys@, kid@) < self.keys@.len() && *key
                    == self.keys@[first_key(self.keys@, kid@)],
                None => first_key(self.keys@, kid@) == self.keys@.len(),
            },
    {
        let wanted: String = kid.to_owned();
        let n: usize = self.keys.len();
        let mut i: usize = 0;
        while i < n
            invariant
                n == self.keys@.len(),
                i <= n,
                wanted@ == kid@,
                forall|j: int| 0 <= j < i ==> !has_key_id(#[trigger] self.keys@[j], kid@),
            decreases n - i,
        {
            let found = match &self.keys[i].kid {
                Some(k) => *k == wanted,
                None => false,
            };
            if found {
                proof {
                    lemma_first_key(self.keys@, kid@, i as int);
                }
                return Some(&self.keys[i]);
            }
            i = i + 1;
        }
        proof {
            lemma_first_key(self.keys@, kid@, n as int);
        }
        None
    }
}

/// What the holder of a key-set cache has to do before it reads the keys.
#[derive(Clone, Copy, Debug, PartialEq, Eq, Structural)]
pub enum KeySetPlan {
    /// The cached set is fresh: use it.
    UseCached,
    /// Nothing was fetched yet, or the set is older than an hour: fetch.
    Refresh,
}

/// One key set and the time at which it was fetched, in seconds.
#[derive(Debug)]
pub struct KeySetCache {
    keys: SigningKeySet,
    fetched_at: Option<u64>,
}

/// Whether a set fetched at `fetched_at` has to be fetched again at `now`.
pub open spec fn is_stale(fetched_at: Option<u64>, now: u64) -> bool {
    match fetched_at {
        None => true,
        Some(at) => now - at > KEY_SET_TTL_SECS,
    }
}

impl KeySetCache {
    /// The keys that the cache holds.
    pub closed spec fn keys(&self) -> Seq<SigningKey> {
        self.keys.keys@
    }

    /// When the held keys were fetched; `None` before the first fetch.
    pub closed spec fn fetched_at(&self) -> Option<u64> {
        self.fetched_at
    }

    /// The cache is never empty once a fetch has succeeded.
    #[verifier::type_invariant]
    spec fn wf(&self) -> bool {
        self.fetched_at is Some ==> self.keys.keys@.len() > 0
    }

    /// A cache into which nothing was fetched yet.
    pub fn new() -> (r: KeySetCache)
        ensures
            r.fetched_at() is None,
            r.keys().len() == 0,
    {
        KeySetCache { keys: SigningKeySet::new(), fetched_at: None }
    }

    /// Whether a fetch has ever succeeded.
    pub fn has_keys(&self) -> (r: bool)
        ensures
            r == self.fetched_at() is Some,
    {
        self.fetched_at.is_some()
    }

    /// Whether the keys have to be fetched before they are used at `now`.
    pub fn plan(&self, now: u64) -> (r: KeySetPlan)
        ensures
            r == (if is_stale(self.fetched_at(), now) {
                KeySetPlan::Refresh
            } else {
                KeySetPlan::UseCached
            }),
    {
        match self.fetched_at {
            None => KeySetPlan::Refresh,
            Some(at) => {
                if now > at && now - at > KEY_SET_TTL_SECS {
                    KeySetPlan::Refresh
                } else {
                    KeySetPlan::UseCached
                }
            },
        }
    }

    /// Takes in what a fetch at `now` has brought. A set with at least one
    /// key replaces the held set and its time. A failure, or a set without
    /// keys, changes nothing and is handed back.
    pub fn complete_refresh(&mut self, fetched: Result<SigningKeySet, FetchError>, now: u64) -> (r:
        Result<(), FetchError>)
        ensures
            match fetched {
                Ok(set) => if set.keys@.len() > 0 {
                    &&& r is Ok
                    &&& final(self).keys() == set.keys@
                    &&& final(self).fetched_at() == Some(now)
                } else {
                    &&& r is Err
                    &&& r->Err_0 is Empty
                    &&& *final(self) == *old(self)
                },
                Err(e) => {
                    &&& r == Err::<(), FetchError>(e)
                    &&& *final(self) == *old(self)
                },
            },
    {
        match fetched {
            Ok(set) => {
                if set.keys.len() > 0 {
                    self.keys = set;
                    self.fetched_at = Some(now);
                    Ok(())
                } else {
                    Err(FetchError::Empty)
                }
            },
            Err(e) => Err(e),
        }
    }

    /// The held keys, fresh or not. They are not empty once a fetch has
    /// succeeded.
    pub fn key_set(&self) -> (r: &SigningKeySet)
        ensures
            r.keys@ == self.keys(),
            self.fetched_at() is Some ==> r.keys@.len() > 0,
    {
        proof {
            use_type_invariant(self);
        }
        &self.keys
    }
}

} // verus!
