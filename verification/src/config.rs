//! The settings of the caches: how long an entry lives and how many entries
//! a cache holds.

use crate::text::{chars_of, decimal_digit, is_decimal_digit};
use core::time::Duration;
use vstd::prelude::*;

verus! {

/// The duration of `secs` whole seconds.
pub uninterp spec fn duration_of_secs(secs: u64) -> Duration;

/// The whole seconds that a duration holds.
pub uninterp spec fn whole_secs(d: Duration) -> u64;

/// `Duration::from_secs` of std: the duration of that many whole seconds.
pub assume_specification[ Duration::from_secs ](secs: u64) -> (d: Duration)
    ensures
        d == duration_of_secs(secs),
        whole_secs(d) == secs,
;

/// `Duration::as_secs` of std: the whole seconds that the duration holds.
pub assume_specification[ Duration::as_secs ](d: &Duration) -> (secs: u64)
    ensures
        secs == whole_secs(*d),
;

/// The settings of the caches.
#[derive(Debug)]
pub struct LambdaConfig {
    /// How long a user or a permission decision is cached.
    pub cache_ttl: Duration,
    /// How long a secret hash is cached.
    pub hash_cache_ttl: Duration,
    /// How long the provider's credentials are cached.
    pub secrets_cache_ttl: Duration,
    /// How many users, decisions and hashes are cached, each.
    pub cache_max_capacity: u64,
    /// How many lists of an organization's users are cached.
    pub org_users_cache_max_capacity: u64,
    /// How many sets of credentials are cached.
    pub secrets_cache_max_capacity: u64,
}

/// The value of a sequence of decimal digits.
pub open spec fn digits_value(digits: Seq<char>) -> nat
    decreases digits.len(),
{
    if digits.len() == 0 {
        0
    } else {
        digits_value(digits.drop_last()) * 10 + ((digits.last() as u32 - '0' as u32) as nat)
    }
}

/// A text without its leading plus sign, if it has one.
pub open spec fn without_sign(s: Seq<char>) -> Seq<char> {
    if s.len() > 0 && s[0] == '+' {
        s.skip(1)
    } else {
        s
    }
}

/// Whether every character of a text is a decimal digit.
pub open spec fn all_digits(s: Seq<char>) -> bool {
    forall|i: int| 0 <= i < s.len() ==> is_decimal_digit(#[trigger] s[i])
}

/// The number that a text stands for: an optional plus sign and then one or
/// more decimal digits, whose value is below 2^64. Any other text stands
/// for no number.
pub open spec fn decimal_value(s: Seq<char>) -> Option<u64> {
    let digits = without_sign(s);
    if digits.len() == 0 || !all_digits(digits) || digits_value(digits) > u64::MAX {
        None
    } else {
        Some(digits_value(digits) as u64)
    }
}

/// The value of a prefix of digits is at most the value of the whole.
pub proof fn lemma_digits_value_grows(digits: Seq<char>, k: int)
    requires
        0 <= k <= digits.len(),
        all_digits(digits),
    ensures
        digits_value(digits.take(k)) <= digits_value(digits),
    decreases digits.len() - k,
{
    if k < digits.len() {
        let next = digits.take(k + 1);
        assert(next.drop_last() =~= digits.take(k));
        assert(next.last() == digits[k]);
        assert(is_decimal_digit(digits[k]));
        lemma_digits_value_grows(digits, k + 1);
    } else {
        assert(digits.take(k) =~= digits);
    }
}

/// The number that a text stands for, as `str::parse::<u64>` reads it.
pub fn parse_u64(s: &str) -> (r: Option<u64>)
    ensures
        r == decimal_value(s@),
{
    let chars = chars_of(s);
    let n: usize = chars.len();
    let start: usize = if n > 0 && chars[0] == '+' {
        1
    } else {
        0
    };
    let ghost digits = without_sign(s@);
    assert(digits =~= chars@.skip(start as int));
    if start == n {
        return None;
    }
    let mut acc: u64 = 0;
    let mut i: usize = start;
    assert(digits.take(0) =~= Seq::<char>::empty());
    while i < n
        invariant
            n == chars@.len(),
            start <= i <= n,
            start < n,
            digits == chars@.skip(start as int),
            digits == without_sign(s@),
            forall|j: int| 0 <= j < i - start ==> is_decimal_digit(#[trigger] digits[j]),
            acc == digits_value(digits.take(i - start)),
        decreases n - i,
    {
        let c = chars[i];
        assert(digits[i - start] == c);
        if !decimal_digit(c) {
            assert(0 <= i - start < digits.len() && !is_decimal_digit(digits[i - start]));
            return None;
        }
        let d: u64 = (c as u32 - '0' as u32) as u64;
        proof {
            let next = digits.take(i - start + 1);
            assert(next.drop_last() =~= digits.take(i - start));
            assert(next.last() == c);
        }
        if acc > (u64::MAX - d) / 10 {
            proof {
                if all_digits(digits) {
                    lemma_digits_value_grows(digits, i - start + 1);
                    assert(digits_value(digits.take(i - start + 1)) == acc * 10 + d);
                }
            }
            return None;
        }
        acc = acc * 10 + d;
        i = i + 1;
    }
    assert(digits.take(n - start) =~= digits);
    Some(acc)
}

/// The number that a setting stands for, or `default` where the setting is
/// absent or stands for no number.
pub open spec fn setting_value(value: Option<Seq<char>>, default: u64) -> u64 {
    match value {
        Some(text) => match decimal_value(text) {
            Some(n) => n,
            None => default,
        },
        None => default,
    }
}

/// The number that a setting stands for, or `default`.
pub fn setting_or(value: &Option<String>, default: u64) -> (r: u64)
    ensures
        r == setting_value(
            match *value {
                Some(text) => Some(text@),
                None => None,
            },
            default,
        ),
{
    match value {
        Some(text) => match parse_u64(text.as_str()) {
            Some(n) => n,
            None => default,
        },
        None => default,
    }
}

/// The text of an optional setting.
pub open spec fn setting_text(value: Option<String>) -> Option<Seq<char>> {
    match value {
        Some(text) => Some(text@),
        None => None,
    }
}

impl Default for LambdaConfig {
    /// Users and decisions live for 30 minutes, hashes and credentials for
    /// an hour; the caches hold 1000, 100 and 10 entries.
    fn default() -> (r: LambdaConfig)
        ensures
            r.cache_ttl == duration_of_secs(1800),
            r.hash_cache_ttl == duration_of_secs(3600),
            r.secrets_cache_ttl == duration_of_secs(3600),
            whole_secs(r.cache_ttl) == 1800,
            whole_secs(r.hash_cache_ttl) == 3600,
            whole_secs(r.secrets_cache_ttl) == 3600,
            r.cache_max_capacity == 1000,
            r.org_users_cache_max_capacity == 100,
            r.secrets_cache_max_capacity == 10,
    {
        LambdaConfig {
            cache_ttl: Duration::from_secs(1800),
            hash_cache_ttl: Duration::from_secs(3600),
            secrets_cache_ttl: Duration::from_secs(3600),
            cache_max_capacity: 1000,
            org_users_cache_max_capacity: 100,
            secrets_cache_max_capacity: 10,
        }
    }
}

impl LambdaConfig {
    /// The settings with the given values.
    pub fn new(
        cache_ttl: Duration,
        hash_cache_ttl: Duration,
        secrets_cache_ttl: Duration,
        cache_max_capacity: u64,
        org_users_cache_max_capacity: u64,
        secrets_cache_max_capacity: u64,
    ) -> (r: LambdaConfig)
        ensures
            r.cache_ttl == cache_ttl,
            r.hash_cache_ttl == hash_cache_ttl,
            r.secrets_cache_ttl == secrets_cache_ttl,
            r.cache_max_capacity == cache_max_capacity,
            r.org_users_cache_max_capacity == org_users_cache_max_capacity,
            r.secrets_cache_max_capacity == secrets_cache_max_capacity,
    {
        LambdaConfig {
            cache_ttl,
            hash_cache_ttl,
            secrets_cache_ttl,
            cache_max_capacity,
            org_users_cache_max_capacity,
            secrets_cache_max_capacity,
        }
    }

    /// The settings that six optional texts stand for, as they come from
    /// the environment: the three lifetimes in seconds and the three
    /// capacities. A text that is absent or stands for no number gives the
    /// default.
    pub fn from_values(
        cache_ttl_secs: &Option<String>,
        hash_cache_ttl_secs: &Option<String>,
        secrets_cache_ttl_secs: &Option<String>,
        cache_max_capacity: &Option<String>,
        org_users_cache_max_capacity: &Option<String>,
        secrets_cache_max_capacity: &Option<String>,
    ) -> (r: LambdaConfig)
        ensures
            r.cache_ttl == duration_of_secs(setting_value(setting_text(*cache_ttl_secs), 1800)),
            r.hash_cache_ttl == duration_of_secs(
                setting_value(setting_text(*hash_cache_ttl_secs), 3600),
            ),
            r.secrets_cache_ttl == duration_of_secs(
                setting_value(setting_text(*secrets_cache_ttl_secs), 3600),
            ),
            whole_secs(r.cache_ttl) == setting_value(setting_text(*cache_ttl_secs), 1800),
            whole_secs(r.hash_cache_ttl) == setting_value(setting_text(*hash_cache_ttl_secs), 3600),
            whole_secs(r.secrets_cache_ttl) == setting_value(
                setting_text(*secrets_cache_ttl_secs),
                3600,
            ),
            r.cache_max_capacity == setting_value(setting_text(*cache_max_capacity), 1000),
            r.org_users_cache_max_capacity == setting_value(
                setting_text(*org_users_cache_max_capacity),
                100,
            ),
            r.secrets_cache_max_capacity == setting_value(
                setting_text(*secrets_cache_max_capacity),
                10,
            ),
    {
        LambdaConfig {
            cache_ttl: Duration::from_secs(setting_or(cache_ttl_secs, 1800)),
            hash_cache_ttl: Duration::from_secs(setting_or(hash_cache_ttl_secs, 3600)),
            secrets_cache_ttl: Duration::from_secs(setting_or(secrets_cache_ttl_secs, 3600)),
            cache_max_capacity: setting_or(cache_max_capacity, 1000),
            org_users_cache_max_capacity: setting_or(org_users_cache_max_capacity, 100),
            secrets_cache_max_capacity: setting_or(secrets_cache_max_capacity, 10),
        }
    }
}

} // verus!

