//! The caches of users, permission decisions, secret hashes, credentials
//! and lists of users, each with its own capacity and lifetime.

use crate::config::{whole_secs, LambdaConfig};
use crate::secrets::Secrets;
use crate::user::User;
use core::time::Duration;
use vstd::prelude::*;

verus! {

/// What a cache can hold.
#[derive(Clone, Debug)]
pub enum CacheValue {
    User(User),
    Permission(bool),
    Hash(String),
    Secrets(Secrets),
    Users(Vec<User>),
}

/// The user that a cached value is, if it is one.
pub open spec fn user_of(value: CacheValue) -> Option<User> {
    match value {
        CacheValue::User(user) => Some(user),
        _ => None,
    }
}

/// The permission decision that a cached value is, if it is one.
pub open spec fn permission_of(value: CacheValue) -> Option<bool> {
    match value {
        CacheValue::Permission(decision) => Some(decision),
        _ => None,
    }
}

/// The secret hash that a cached value is, if it is one.
pub open spec fn hash_of(value: CacheValue) -> Option<String> {
    match value {
        CacheValue::Hash(hash) => Some(hash),
        _ => None,
    }
}

/// The credentials that a cached value is, if it is that.
pub open spec fn secrets_of(value: CacheValue) -> Option<Secrets> {
    match value {
        CacheValue::Secrets(secrets) => Some(secrets),
        _ => None,
    }
}

/// The list of users that a cached value is, if it is one.
pub open spec fn users_of(value: CacheValue) -> Option<Vec<User>> {
    match value {
        CacheValue::Users(users) => Some(users),
        _ => None,
    }
}

impl CacheValue {
    /// The user that this value is, if it is one.
    pub fn into_user(self) -> (r: Option<User>)
        ensures
            r == user_of(self),
    {
        match self {
            CacheValue::User(user) => Some(user),
            _ => None,
        }
    }

    /// The permission decision that this value is, if it is one.
    pub fn into_permission(self) -> (r: Option<bool>)
        ensures
            r == permission_of(self),
    {
        match self {
            CacheValue::Permission(decision) => Some(decision),
            _ => None,
        }
    }

    /// The secret hash that this value is, if it is one.
    pub fn into_hash(self) -> (r: Option<String>)
        ensures
            r == hash_of(self),
    {
        match self {
            CacheValue::Hash(hash) => Some(hash),
            _ => None,
        }
    }

    /// The credentials that this value is, if it is that.
    pub fn into_secrets(self) -> (r: Option<Secrets>)
        ensures
            r == secrets_of(self),
    {
        match self {
            CacheValue::Secrets(secrets) => Some(secrets),
            _ => None,
        }
    }

    /// The list of users that this value is, if it is one.
    pub fn into_users(self) -> (r: Option<Vec<User>>)
        ensures
            r == users_of(self),
    {
        match self {
            CacheValue::Users(users) => Some(users),
            _ => None,
        }
    }
}

/// A concurrent cache that is bounded in size and in the lifetime of its
/// entries.
#[verifier::external_type_specification]
#[verifier::external_body]
#[verifier::reject_recursive_types(K)]
#[verifier::reject_recursive_types(V)]
#[verifier::reject_recursive_types(S)]
pub struct ExCache<K, V, S>(moka::sync::Cache<K, V, S>);

/// No lifetime of a cache entry may reach this many seconds, which are a
/// thousand years.
pub const LIFETIME_LIMIT_SECS: u64 = 31_536_000_000;

/// What was put into a cache since it was made or last emptied: under each
/// key the value that was put there last. The cache gives out nothing else;
/// it may have dropped any of it.
pub uninterp spec fn cache_entries(cache: moka::sync::Cache<String, CacheValue>) -> Map<
    Seq<char>,
    CacheValue,
>;

/// How many entries a cache was made to hold at most, if it was made
/// with a bound.
pub uninterp spec fn cache_max_capacity(cache: moka::sync::Cache<String, CacheValue>) -> Option<u64>;

/// How long an entry of a cache lives after it was put in, if the cache was
/// made with a lifetime.
pub uninterp spec fn cache_time_to_live(cache: moka::sync::Cache<String, CacheValue>) -> Option<
    Duration,
>;

/// The capacity and the lifetime that a cache was made with.
#[derive(Clone, Copy, Debug, PartialEq, Eq)]
pub struct CacheLimit {
    pub max_capacity: Option<u64>,
    pub time_to_live: Option<Duration>,
}

/// The capacity and the lifetime of `cache`.
pub open spec fn limit_of(cache: moka::sync::Cache<String, CacheValue>) -> CacheLimit {
    CacheLimit {
        max_capacity: cache_max_capacity(cache),
        time_to_live: cache_time_to_live(cache),
    }
}

/// The limit of a cache that holds `max_capacity` entries for
/// `time_to_live` each.
pub open spec fn limit(max_capacity: u64, time_to_live: Duration) -> CacheLimit {
    CacheLimit { max_capacity: Some(max_capacity), time_to_live: Some(time_to_live) }
}

/// The entries of a cache into which nothing was put.
pub open spec fn no_entries() -> Map<Seq<char>, CacheValue> {
    Map::empty()
}

/// `Cache::builder`, `max_capacity`, `time_to_live` and `build` of moka: a
/// new cache, into which nothing was put. `build` panics on a lifetime of
/// more than a thousand years.
#[verifier::external_body]
fn cache_build(max_capacity: u64, time_to_live: Duration) -> (r: moka::sync::Cache<
    String,
    CacheValue,
>)
    requires
        whole_secs(time_to_live) < LIFETIME_LIMIT_SECS,
    ensures
        cache_entries(r) == no_entries(),
        cache_max_capacity(r) == Some(max_capacity),
        cache_time_to_live(r) == Some(time_to_live),
{
    moka::sync::Cache::builder().max_capacity(max_capacity).time_to_live(time_to_live).build()
}

/// `Cache::get` of moka: a clone of the value that was last put under the
/// key, or nothing.
#[verifier::external_body]
fn cache_get(cache: &moka::sync::Cache<String, CacheValue>, key: &str) -> (r: Option<CacheValue>)
    ensures
        r is Some ==> cache_entries(*cache).contains_key(key@) && cache_entries(*cache)[key@]
            == r->0,
{
    cache.get(key)
}

/// `Cache::insert` of moka: the value is put under the key, in place of
/// what was there.
#[verifier::external_body]
fn cache_insert(cache: &mut moka::sync::Cache<String, CacheValue>, key: String, value: CacheValue)
    ensures
        cache_entries(*final(cache)) == cache_entries(*old(cache)).insert(key@, value),
        cache_max_capacity(*final(cache)) == cache_max_capacity(*old(cache)),
        cache_time_to_live(*final(cache)) == cache_time_to_live(*old(cache)),
{
    cache.insert(key, value)
}

/// `Cache::invalidate_all` of moka: nothing that was put into the cache
/// before is given out again.
#[verifier::external_body]
fn cache_invalidate_all(cache: &mut moka::sync::Cache<String, CacheValue>)
    ensures
        cache_entries(*final(cache)) == no_entries(),
        cache_max_capacity(*final(cache)) == cache_max_capacity(*old(cache)),
        cache_time_to_live(*final(cache)) == cache_time_to_live(*old(cache)),
{
    cache.invalidate_all()
}

/// `Cache::policy` of moka, with `Policy::max_capacity` and
/// `Policy::time_to_live`: the capacity and the lifetime that the cache was
/// made with.
#[verifier::external_body]
fn cache_limit(cache: &moka::sync::Cache<String, CacheValue>) -> (r: CacheLimit)
    ensures
        r.max_capacity == cache_max_capacity(*cache),
        r.time_to_live == cache_time_to_live(*cache),
{
    let policy = cache.policy();
    CacheLimit { max_capacity: policy.max_capacity(), time_to_live: policy.time_to_live() }
}

/// `Cache::entry_count` of moka: an estimate of the number of entries.
#[verifier::external_body]
fn cache_entry_count(cache: &moka::sync::Cache<String, CacheValue>) -> (r: u64) {
    cache.entry_count()
}

/// Estimates of how many entries each cache holds.
#[derive(Clone, Copy, Debug)]
pub struct CacheStats {
    pub user_cache_size: u64,
    pub permission_cache_size: u64,
    pub hash_cache_size: u64,
    pub secrets_cache_size: u64,
    pub org_users_cache_size: u64,
}

impl CacheStats {
    /// The statistics that five estimates make, in the order of the users,
    /// the decisions, the hashes, the credentials and the lists of users.
    pub fn from_counts(users: u64, permissions: u64, hashes: u64, secrets: u64, org_users: u64) -> (r:
        CacheStats)
        ensures
            r.user_cache_size == users,
            r.permission_cache_size == permissions,
            r.hash_cache_size == hashes,
            r.secrets_cache_size == secrets,
            r.org_users_cache_size == org_users,
    {
        CacheStats {
            user_cache_size: users,
            permission_cache_size: permissions,
            hash_cache_size: hashes,
            secrets_cache_size: secrets,
            org_users_cache_size: org_users,
        }
    }
}

/// The limits of the five caches.
#[derive(Clone, Copy, Debug, PartialEq, Eq)]
pub struct CacheLimits {
    pub user_cache: CacheLimit,
    pub permission_cache: CacheLimit,
    pub hash_cache: CacheLimit,
    pub secrets_cache: CacheLimit,
    pub org_users_cache: CacheLimit,
}

/// The limits that the settings `config` give to the five caches: users
/// and decisions share capacity and lifetime; hashes have the same capacity
/// and their own lifetime; the credentials have their own capacity and
/// lifetime; the lists of users have their own capacity and the lifetime of
/// users.
pub open spec fn limits_for(config: &LambdaConfig) -> CacheLimits {
    CacheLimits {
        user_cache: limit(config.cache_max_capacity, config.cache_ttl),
        permission_cache: limit(config.cache_max_capacity, config.cache_ttl),
        hash_cache: limit(config.cache_max_capacity, config.hash_cache_ttl),
        secrets_cache: limit(config.secrets_cache_max_capacity, config.secrets_cache_ttl),
        org_users_cache: limit(config.org_users_cache_max_capacity, config.cache_ttl),
    }
}

/// The five caches.
pub struct CacheManager {
    user_cache: moka::sync::Cache<String, CacheValue>,
    permission_cache: moka::sync::Cache<String, CacheValue>,
    hash_cache: moka::sync::Cache<String, CacheValue>,
    secrets_cache: moka::sync::Cache<String, CacheValue>,
    org_users_cache: moka::sync::Cache<String, CacheValue>,
}

/// The users among `entries`.
pub open spec fn users_in(entries: Map<Seq<char>, CacheValue>) -> Map<Seq<char>, User> {
    Map::new(
        |k: Seq<char>| entries.contains_key(k) && entries[k] is User,
        |k: Seq<char>| entries[k]->User_0,
    )
}

/// The permission decisions among `entries`.
pub open spec fn permissions_in(entries: Map<Seq<char>, CacheValue>) -> Map<Seq<char>, bool> {
    Map::new(
        |k: Seq<char>| entries.contains_key(k) && entries[k] is Permission,
        |k: Seq<char>| entries[k]->Permission_0,
    )
}

/// The secret hashes among `entries`.
pub open spec fn hashes_in(entries: Map<Seq<char>, CacheValue>) -> Map<Seq<char>, String> {
    Map::new(
        |k: Seq<char>| entries.contains_key(k) && entries[k] is Hash,
        |k: Seq<char>| entries[k]->Hash_0,
    )
}

/// The credentials among `entries`.
pub open spec fn secrets_in(entries: Map<Seq<char>, CacheValue>) -> Map<Seq<char>, Secrets> {
    Map::new(
        |k: Seq<char>| entries.contains_key(k) && entries[k] is Secrets,
        |k: Seq<char>| entries[k]->Secrets_0,
    )
}

/// The lists of users among `entries`.
pub open spec fn user_lists_in(entries: Map<Seq<char>, CacheValue>) -> Map<Seq<char>, Vec<User>> {
    Map::new(
        |k: Seq<char>| entries.contains_key(k) && entries[k] is Users,
        |k: Seq<char>| entries[k]->Users_0,
    )
}

impl CacheManager {
    /// The users that were cached, by their identifiers.
    pub closed spec fn users(&self) -> Map<Seq<char>, User> {
        users_in(cache_entries(self.user_cache))
    }

    /// The permission decisions that were cached, by their keys.
    pub closed spec fn permissions(&self) -> Map<Seq<char>, bool> {
        permissions_in(cache_entries(self.permission_cache))
    }

    /// The secret hashes that were cached, by the names they are for.
    pub closed spec fn hashes(&self) -> Map<Seq<char>, String> {
        hashes_in(cache_entries(self.hash_cache))
    }

    /// The credentials that were cached, by their regions.
    pub closed spec fn secrets(&self) -> Map<Seq<char>, Secrets> {
        secrets_in(cache_entries(self.secrets_cache))
    }

    /// The lists of users that were cached, by their organizations.
    pub closed spec fn org_users(&self) -> Map<Seq<char>, Vec<User>> {
        user_lists_in(cache_entries(self.org_users_cache))
    }

    /// The limits that the five caches were made with.
    pub closed spec fn spec_limits(&self) -> CacheLimits {
        CacheLimits {
            user_cache: limit_of(self.user_cache),
            permission_cache: limit_of(self.permission_cache),
            hash_cache: limit_of(self.hash_cache),
            secrets_cache: limit_of(self.secrets_cache),
            org_users_cache: limit_of(self.org_users_cache),
        }
    }

    /// The limits that the five caches were made with.
    pub fn limits(&self) -> (r: CacheLimits)
        ensures
            r == self.spec_limits(),
    {
        CacheLimits {
            user_cache: cache_limit(&self.user_cache),
            permission_cache: cache_limit(&self.permission_cache),
            hash_cache: cache_limit(&self.hash_cache),
            secrets_cache: cache_limit(&self.secrets_cache),
            org_users_cache: cache_limit(&self.org_users_cache),
        }
    }

    /// Whether the lifetimes of `config` are short enough for a cache.
    pub open spec fn accepts(config: &LambdaConfig) -> bool {
        &&& whole_secs(config.cache_ttl) < LIFETIME_LIMIT_SECS
        &&& whole_secs(config.hash_cache_ttl) < LIFETIME_LIMIT_SECS
        &&& whole_secs(config.secrets_cache_ttl) < LIFETIME_LIMIT_SECS
    }

    /// Whether nothing is cached.
    pub open spec fn is_empty(&self) -> bool {
        &&& self.users() == Map::<Seq<char>, User>::empty()
        &&& self.permissions() == Map::<Seq<char>, bool>::empty()
        &&& self.hashes() == Map::<Seq<char>, String>::empty()
        &&& self.secrets() == Map::<Seq<char>, Secrets>::empty()
        &&& self.org_users() == Map::<Seq<char>, Vec<User>>::empty()
    }

    /// Five empty caches with the capacities and lifetimes of `config`;
    /// `None` if one of the lifetimes is a thousand years or more.
    pub fn new(config: &LambdaConfig) -> (r: Option<CacheManager>)
        ensures
            r is Some <==> Self::accepts(config),
            r is Some ==> r->0.is_empty(),
            r is Some ==> r->0.spec_limits() == limits_for(config),
    {
        if config.cache_ttl.as_secs() >= LIFETIME_LIMIT_SECS || config.hash_cache_ttl.as_secs()
            >= LIFETIME_LIMIT_SECS || config.secrets_cache_ttl.as_secs() >= LIFETIME_LIMIT_SECS {
            return None;
        }
        let manager = CacheManager {
            user_cache: cache_build(config.cache_max_capacity, config.cache_ttl),
            permission_cache: cache_build(config.cache_max_capacity, config.cache_ttl),
            hash_cache: cache_build(config.cache_max_capacity, config.hash_cache_ttl),
            secrets_cache: cache_build(config.secrets_cache_max_capacity, config.secrets_cache_ttl),
            org_users_cache: cache_build(config.org_users_cache_max_capacity, config.cache_ttl),
        };
        assert(manager.users() =~= Map::<Seq<char>, User>::empty());
        assert(manager.permissions() =~= Map::<Seq<char>, bool>::empty());
        assert(manager.hashes() =~= Map::<Seq<char>, String>::empty());
        assert(manager.secrets() =~= Map::<Seq<char>, Secrets>::empty());
        assert(manager.org_users() =~= Map::<Seq<char>, Vec<User>>::empty());
        Some(manager)
    }

    /// The user that was cached under `user_id`, unless the cache has
    /// dropped it.
    pub fn get_user(&self, user_id: &str) -> (r: Option<User>)
        ensures
            r is Some ==> self.users().contains_key(user_id@) && self.users()[user_id@] == r->0,
    {
        match cache_get(&self.user_cache, user_id) {
            Some(value) => value.into_user(),
            None => None,
        }
    }

    /// Caches `user` under `user_id`.
    pub fn set_user(&mut self, user_id: String, user: User)
        ensures
            final(self).users() == old(self).users().insert(user_id@, user),
            final(self).permissions() == old(self).permissions(),
            final(self).hashes() == old(self).hashes(),
            final(self).secrets() == old(self).secrets(),
            final(self).org_users() == old(self).org_users(),
            final(self).spec_limits() == old(self).spec_limits(),
    {
        cache_insert(&mut self.user_cache, user_id, CacheValue::User(user));
        assert(self.users() =~= old(self).users().insert(user_id@, user));
    }

    /// The decision that was cached under `key`, unless the cache has
    /// dropped it.
    pub fn get_permission(&self, key: &str) -> (r: Option<bool>)
        ensures
            r is Some ==> self.permissions().contains_key(key@) && self.permissions()[key@]
                == r->0,
    {
        match cache_get(&self.permission_cache, key) {
            Some(value) => value.into_permission(),
            None => None,
        }
    }

    /// Caches the decision `has_permission` under `key`.
    pub fn set_permission(&mut self, key: String, has_permission: bool)
        ensures
            final(self).permissions() == old(self).permissions().insert(key@, has_permission),
            final(self).users() == old(self).users(),
            final(self).hashes() == old(self).hashes(),
            final(self).secrets() == old(self).secrets(),
            final(self).org_users() == old(self).org_users(),
            final(self).spec_limits() == old(self).spec_limits(),
    {
        cache_insert(&mut self.permission_cache, key, CacheValue::Permission(has_permission));
        assert(self.permissions() =~= old(self).permissions().insert(key@, has_permission));
    }

    /// The hash that was cached under `key`, unless the cache has dropped
    /// it.
    pub fn get_hash(&self, key: &str) -> (r: Option<String>)
        ensures
            r is Some ==> self.hashes().contains_key(key@) && self.hashes()[key@] == r->0,
    {
        match cache_get(&self.hash_cache, key) {
            Some(value) => value.into_hash(),
            None => None,
        }
    }

    /// Caches `hash` under `key`.
    pub fn set_hash(&mut self, key: String, hash: String)
        ensures
            final(self).hashes() == old(self).hashes().insert(key@, hash),
            final(self).users() == old(self).users(),
            final(self).permissions() == old(self).permissions(),
            final(self).secrets() == old(self).secrets(),
            final(self).org_users() == old(self).org_users(),
            final(self).spec_limits() == old(self).spec_limits(),
    {
        cache_insert(&mut self.hash_cache, key, CacheValue::Hash(hash));
        assert(self.hashes() =~= old(self).hashes().insert(key@, hash));
    }

    /// The credentials that were cached under `region`, unless the cache
    /// has dropped them.
    pub fn get_secrets(&self, region: &str) -> (r: Option<Secrets>)
        ensures
            r is Some ==> self.secrets().contains_key(region@) && self.secrets()[region@] == r->0,
    {
        match cache_get(&self.secrets_cache, region) {
            Some(value) => value.into_secrets(),
            None => None,
        }
    }

    /// Caches `secrets` under `region`.
    pub fn set_secrets(&mut self, region: String, secrets: Secrets)
        ensures
            final(self).secrets() == old(self).secrets().insert(region@, secrets),
            final(self).users() == old(self).users(),
            final(self).permissions() == old(self).permissions(),
            final(self).hashes() == old(self).hashes(),
            final(self).org_users() == old(self).org_users(),
            final(self).spec_limits() == old(self).spec_limits(),
    {
        cache_insert(&mut self.secrets_cache, region, CacheValue::Secrets(secrets));
        assert(self.secrets() =~= old(self).secrets().insert(region@, secrets));
    }

    /// The list of users that was cached under `org_id`, unless the cache
    /// has dropped it.
    pub fn get_org_users(&self, org_id: &str) -> (r: Option<Vec<User>>)
        ensures
            r is Some ==> self.org_users().contains_key(org_id@) && self.org_users()[org_id@]
                == r->0,
    {
        match cache_get(&self.org_users_cache, org_id) {
            Some(value) => value.into_users(),
            None => None,
        }
    }

    /// Caches the list `users` under `org_id`.
    pub fn set_org_users(&mut self, org_id: String, users: Vec<User>)
        ensures
            final(self).org_users() == old(self).org_users().insert(org_id@, users),
            final(self).users() == old(self).users(),
            final(self).permissions() == old(self).permissions(),
            final(self).hashes() == old(self).hashes(),
            final(self).secrets() == old(self).secrets(),
            final(self).spec_limits() == old(self).spec_limits(),
    {
        cache_insert(&mut self.org_users_cache, org_id, CacheValue::Users(users));
        assert(self.org_users() =~= old(self).org_users().insert(org_id@, users));
    }

    /// Empties the five caches: nothing that was cached before is given out
    /// again.
    pub fn clear_all(&mut self)
        ensures
            final(self).is_empty(),
            final(self).spec_limits() == old(self).spec_limits(),
    {
        cache_invalidate_all(&mut self.user_cache);
        cache_invalidate_all(&mut self.permission_cache);
        cache_invalidate_all(&mut self.hash_cache);
        cache_invalidate_all(&mut self.secrets_cache);
        cache_invalidate_all(&mut self.org_users_cache);
        assert(self.users() =~= Map::<Seq<char>, User>::empty());
        assert(self.permissions() =~= Map::<Seq<char>, bool>::empty());
        assert(self.hashes() =~= Map::<Seq<char>, String>::empty());
        assert(self.secrets() =~= Map::<Seq<char>, Secrets>::empty());
        assert(self.org_users() =~= Map::<Seq<char>, Vec<User>>::empty());
    }

    /// Estimates of how many entries each cache holds.
    pub fn get_stats(&self) -> (r: CacheStats) {
        CacheStats::from_counts(
            cache_entry_count(&self.user_cache),
            cache_entry_count(&self.permission_cache),
            cache_entry_count(&self.hash_cache),
            cache_entry_count(&self.secrets_cache),
            cache_entry_count(&self.org_users_cache),
        )
    }
}

/// A cache of values of type `T` under textual keys.
pub trait Cacheable<T> {
    /// What was cached, by key.
    spec fn cached(&self) -> Map<Seq<char>, T>;

    /// The value that was cached under `key`, unless the cache has dropped
    /// it.
    fn get_cached(&self, key: &str) -> (r: Option<T>)
        ensures
            r is Some ==> self.cached().contains_key(key@) && self.cached()[key@] == r->0,
    ;

    /// Caches `value` under `key`.
    fn set_cached(&mut self, key: String, value: T)
        ensures
            final(self).cached() == old(self).cached().insert(key@, value),
    ;
}

impl Cacheable<User> for CacheManager {
    open spec fn cached(&self) -> Map<Seq<char>, User> {
        self.users()
    }

    fn get_cached(&self, key: &str) -> (r: Option<User>) {
        self.get_user(key)
    }

    fn set_cached(&mut self, key: String, value: User) {
        self.set_user(key, value)
    }
}

impl Cacheable<bool> for CacheManager {
    open spec fn cached(&self) -> Map<Seq<char>, bool> {
        self.permissions()
    }

    fn get_cached(&self, key: &str) -> (r: Option<bool>) {
        self.get_permission(key)
    }

    fn set_cached(&mut self, key: String, value: bool) {
        self.set_permission(key, value)
    }
}

impl Cacheable<String> for CacheManager {
    open spec fn cached(&self) -> Map<Seq<char>, String> {
        self.hashes()
    }

    fn get_cached(&self, key: &str) -> (r: Option<String>) {
        self.get_hash(key)
    }

    fn set_cached(&mut self, key: String, value: String) {
        self.set_hash(key, value)
    }
}

impl Cacheable<Secrets> for CacheManager {
    open spec fn cached(&self) -> Map<Seq<char>, Secrets> {
        self.secrets()
    }

    fn get_cached(&self, key: &str) -> (r: Option<Secrets>) {
        self.get_secrets(key)
    }

    fn set_cached(&mut self, key: String, value: Secrets) {
        self.set_secrets(key, value)
    }
}

impl Cacheable<Vec<User>> for CacheManager {
    open spec fn cached(&self) -> Map<Seq<char>, Vec<User>> {
        self.org_users()
    }

    fn get_cached(&self, key: &str) -> (r: Option<Vec<User>>) {
        self.get_org_users(key)
    }

    fn set_cached(&mut self, key: String, value: Vec<User>) {
        self.set_org_users(key, value)
    }
}

/// What is read under a key right after a value was cached under it is
/// that value, unless the cache has dropped it already.
pub proof fn lemma_get_after_set<V>(
    before: Map<Seq<char>, V>,
    key: Seq<char>,
    value: V,
    got: Option<V>,
)
    requires
        got is Some ==> before.insert(key, value).contains_key(key) && before.insert(
            key,
            value,
        )[key] == got->0,
    ensures
        got is None || got == Some(value),
{
}

/// Nothing is read under any key from a cache in which nothing is cached,
/// as after `clear_all`.
pub proof fn lemma_get_after_clear<V>(key: Seq<char>, got: Option<V>)
    requires
        got is Some ==> Map::<Seq<char>, V>::empty().contains_key(key) && Map::<
            Seq<char>,
            V,
        >::empty()[key] == got->0,
    ensures
        got is None,
{
}

} // verus!
