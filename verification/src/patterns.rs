//! The patterns for email addresses and for the names of people, and the
//! further rules that a name has to meet.

use crate::text::{chars_of, contains_chars, is_white_space, seq_contains, trim_bounds, trimmed};
use vstd::prelude::*;

verus! {

/// A compiled regular expression.
#[verifier::external_type_specification]
#[verifier::external_body]
pub struct ExRegex(regex::Regex);

/// The regular expression that `pattern` is compiled to, with the default
/// options; `None` where the pattern is not valid or too large.
pub uninterp spec fn compiled(pattern: Seq<char>) -> Option<regex::Regex>;

/// Whether the regular expression `re` matches somewhere in `text`.
pub uninterp spec fn regex_matches(re: regex::Regex, text: Seq<char>) -> bool;

/// Whether `pattern` is a regular expression that can be compiled within
/// the default size limit.
pub open spec fn pattern_compiles(pattern: Seq<char>) -> bool {
    compiled(pattern) is Some
}

/// Whether `pattern` compiles to a regular expression that matches
/// somewhere in `text`.
pub open spec fn regex_accepts(pattern: Seq<char>, text: Seq<char>) -> bool {
    compiled(pattern) is Some && regex_matches(compiled(pattern)->0, text)
}

/// `Regex::new` of regex: the regular expression that the pattern is
/// compiled to, which depends on the pattern alone.
#[verifier::external_body]
fn compile(pattern: &str) -> (r: Option<regex::Regex>)
    ensures
        r == compiled(pattern@),
{
    match regex::Regex::new(pattern) {
        Ok(re) => Some(re),
        Err(_) => None,
    }
}

/// `Regex::is_match` of regex: whether the expression matches anywhere in
/// the text, which depends on the expression and the text alone.
pub assume_specification[ regex::Regex::is_match ](re: &regex::Regex, haystack: &str) -> (b: bool)
    ensures
        b == regex_matches(*re, haystack@),
;

/// The pattern of an email address: a local part of dot-separated atoms or
/// a quoted string, an at sign, and a domain of labels whose last has at
/// least two characters, or an address literal in brackets. Letters match
/// in either case.
pub open spec fn email_pattern() -> Seq<char> {
    EMAIL_PATTERN@
}

/// The pattern of a person's name: one to three parts separated by
/// whitespace, each a letter followed by letters, apostrophes, periods or
/// hyphens.
pub open spec fn username_pattern() -> Seq<char> {
    USERNAME_PATTERN@
}

pub const EMAIL_PATTERN: &'static str =
    r#"(?i)^(?:[a-z0-9!#$%&'*+/=?^_`{|}~-]+(?:\.[a-z0-9!#$%&'*+/=?^_`{|}~-]+)*|"(?:[\x01-\x08\x0b\x0c\x0e-\x1f\x21\x23-\x5b\x5d-\x7f]|\\[\x01-\x09\x0b\x0c\x0e-\x7f])*")@(?:(?:[a-z0-9](?:[a-z0-9-]*[a-z0-9])?\.)+[a-z0-9][a-z0-9](?:[a-z0-9-]*[a-z0-9])?|\[(?:(?:(2(5[0-5]|[0-4][0-9])|1[0-9][0-9]|[1-9]?[0-9]))\.){3}(?:(2(5[0-5]|[0-4][0-9])|1[0-9][0-9]|[1-9]?[0-9])|[a-z0-9-]*[a-z0-9]:(?:[\x01-\x08\x0b\x0c\x0e-\x1f\x21-\x5a\x53-\x7f]|\\[\x01-\x09\x0b\x0c\x0e-\x7f])+)\])$"#;

pub const USERNAME_PATTERN: &'static str =
    r"^[\p{L}][\p{L}'\.\-]*(?:\s+[\p{L}][\p{L}'\.\-]*){0,2}$";

/// Whether a name has between 1 and 50 characters, not all of them
/// whitespace.
pub open spec fn valid_username_length(name: Seq<char>) -> bool {
    1 <= name.len() <= 50 && trimmed(name).len() > 0
}

/// Whether a word of `s` starts at `i`: a character that is no whitespace,
/// at the start or behind whitespace.
pub open spec fn is_word_start(s: Seq<char>, i: int) -> bool {
    0 <= i < s.len() && !is_white_space(s[i]) && (i == 0 || is_white_space(s[i - 1]))
}

/// Whether a word of `s` ends at `i`: a character that is no whitespace, at
/// the end or before whitespace.
pub open spec fn is_word_end(s: Seq<char>, i: int) -> bool {
    0 <= i < s.len() && !is_white_space(s[i]) && (i == s.len() - 1 || is_white_space(s[i + 1]))
}

/// How many words of `s` start before index `n`.
pub open spec fn words_before(s: Seq<char>, n: int) -> nat
    decreases n,
{
    if n <= 0 {
        0
    } else {
        words_before(s, n - 1) + (if is_word_start(s, n - 1) {
            1nat
        } else {
            0nat
        })
    }
}

/// How many words, separated by whitespace, `s` holds.
pub open spec fn word_count(s: Seq<char>) -> nat {
    words_before(s, s.len() as int)
}

/// Whether a word may start with `c`.
pub open spec fn may_start_word(c: char) -> bool {
    c != '-' && c != '\'' && c != '.'
}

/// Whether a word may end with `c`.
pub open spec fn may_end_word(c: char) -> bool {
    c != '-' && c != '\''
}

/// Whether a name is well formatted: no whitespace at either end, no two
/// spaces, hyphens, apostrophes or periods in a row, one to three words,
/// none of which starts with a hyphen, an apostrophe or a period or ends
/// with a hyphen or an apostrophe.
pub open spec fn well_formatted_username(name: Seq<char>) -> bool {
    &&& trimmed(name) == name
    &&& !seq_contains(name, "  "@)
    &&& !seq_contains(name, "--"@)
    &&& !seq_contains(name, "''"@)
    &&& !seq_contains(name, ".."@)
    &&& 1 <= word_count(name) <= 3
    &&& forall|i: int| is_word_start(name, i) ==> may_start_word(#[trigger] name[i])
    &&& forall|i: int| is_word_end(name, i) ==> may_end_word(#[trigger] name[i])
}

/// Whether a name is accepted: the pattern of names matches it, its length
/// is valid, and it is well formatted.
pub open spec fn valid_username(name: Seq<char>) -> bool {
    regex_accepts(username_pattern(), name) && valid_username_length(name)
        && well_formatted_username(name)
}

/// Whether an email address is accepted: the pattern of addresses matches
/// it.
pub open spec fn valid_email(email: Seq<char>) -> bool {
    regex_accepts(email_pattern(), email)
}

/// Whether a name has between 1 and 50 characters, not all of them
/// whitespace.
pub fn is_valid_username_length(name: &str) -> (r: bool)
    ensures
        r == valid_username_length(name@),
{
    let chars = chars_of(name);
    let len: usize = chars.len();
    assert(chars@.subrange(0, len as int) =~= name@);
    let (a, b) = trim_bounds(&chars, 0, len);
    1 <= len && len <= 50 && a < b
}

/// Whether the words of `chars` are between one and three and start and
/// end as words may.
fn check_words(chars: &Vec<char>) -> (r: bool)
    ensures
        r == {
            &&& 1 <= word_count(chars@) <= 3
            &&& forall|i: int| is_word_start(chars@, i) ==> may_start_word(#[trigger] chars@[i])
            &&& forall|i: int| is_word_end(chars@, i) ==> may_end_word(#[trigger] chars@[i])
        },
{
    let n: usize = chars.len();
    let mut words: usize = 0;
    let mut i: usize = 0;
    while i < n
        invariant
            n == chars@.len(),
            i <= n,
            words == words_before(chars@, i as int),
            words <= 3,
            words <= i,
            forall|j: int|
                0 <= j < i && is_word_start(chars@, j) ==> may_start_word(#[trigger] chars@[j]),
            forall|j: int|
                0 <= j < i && is_word_end(chars@, j) ==> may_end_word(#[trigger] chars@[j]),
        decreases n - i,
    {
        let c = chars[i];
        if !c.is_whitespace() {
            let starts = i == 0 || chars[i - 1].is_whitespace();
            let ends = i + 1 == n || chars[i + 1].is_whitespace();
            assert(starts == is_word_start(chars@, i as int));
            assert(ends == is_word_end(chars@, i as int));
            if starts {
                if c == '-' || c == '\'' || c == '.' {
                    return false;
                }
                if words == 3 {
                    proof {
                        lemma_words_before_grows(chars@, i + 1, n as int);
                    }
                    return false;
                }
                words = words + 1;
            }
            if ends {
                if c == '-' || c == '\'' {
                    return false;
                }
            }
        }
        i = i + 1;
    }
    words >= 1
}

/// The number of words that start before an index does not fall as the
/// index grows.
pub proof fn lemma_words_before_grows(s: Seq<char>, a: int, b: int)
    requires
        a <= b,
    ensures
        words_before(s, a) <= words_before(s, b),
    decreases b - a,
{
    if a < b {
        lemma_words_before_grows(s, a, b - 1);
    }
}

/// Whether a name is well formatted.
pub fn is_well_formatted_username(name: &str) -> (r: bool)
    ensures
        r == well_formatted_username(name@),
{
    let chars = chars_of(name);
    let len: usize = chars.len();
    assert(chars@.subrange(0, len as int) =~= name@);
    let (a, b) = trim_bounds(&chars, 0, len);
    if a != 0 || b != len {
        assert(trimmed(name@).len() != name@.len());
        return false;
    }
    assert(chars@.subrange(a as int, b as int) =~= name@);
    let two_spaces = chars_of("  ");
    let two_hyphens = chars_of("--");
    let two_apostrophes = chars_of("''");
    let two_periods = chars_of("..");
    if contains_chars(&chars, &two_spaces) || contains_chars(&chars, &two_hyphens)
        || contains_chars(&chars, &two_apostrophes) || contains_chars(&chars, &two_periods) {
        return false;
    }
    check_words(&chars)
}

/// The two patterns, compiled once for many uses.
pub struct Patterns {
    email: regex::Regex,
    username: regex::Regex,
}

impl Patterns {
    /// Both expressions are the compiled form of their pattern.
    #[verifier::type_invariant]
    spec fn wf(&self) -> bool {
        compiled(email_pattern()) == Some(self.email) && compiled(username_pattern()) == Some(
            self.username,
        )
    }

    /// Compiles the two patterns; `None` if one of them does not compile.
    pub fn new() -> (r: Option<Patterns>)
        ensures
            r is Some <==> pattern_compiles(email_pattern()) && pattern_compiles(
                username_pattern(),
            ),
    {
        let email = match compile(EMAIL_PATTERN) {
            Some(re) => re,
            None => {
                return None;
            },
        };
        let username = match compile(USERNAME_PATTERN) {
            Some(re) => re,
            None => {
                return None;
            },
        };
        Some(Patterns { email, username })
    }

    /// Whether an email address is accepted.
    pub fn is_valid_email(&self, email: &str) -> (r: bool)
        ensures
            r == valid_email(email@),
    {
        proof {
            use_type_invariant(self);
        }
        self.email.is_match(email)
    }

    /// Whether a name is accepted.
    pub fn is_valid_username(&self, name: &str) -> (r: bool)
        ensures
            r == valid_username(name@),
    {
        proof {
            use_type_invariant(self);
        }
        self.username.is_match(name) && is_valid_username_length(name)
            && is_well_formatted_username(name)
    }
}

/// Whether an email address is accepted. The pattern is compiled for this
/// one call; an address is refused if the pattern does not compile.
pub fn is_valid_email(email: &str) -> (r: bool)
    ensures
        r == (pattern_compiles(email_pattern()) && pattern_compiles(username_pattern())
            && valid_email(email@)),
{
    match Patterns::new() {
        Some(patterns) => patterns.is_valid_email(email),
        None => false,
    }
}

/// Whether a name is accepted. The pattern is compiled for this one call; a
/// name is refused if the pattern does not compile.
pub fn is_valid_username(name: &str) -> (r: bool)
    ensures
        r == (pattern_compiles(email_pattern()) && pattern_compiles(username_pattern())
            && valid_username(name@)),
{
    match Patterns::new() {
        Some(patterns) => patterns.is_valid_username(name),
        None => false,
    }
}

} // verus!
