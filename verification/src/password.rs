//! Temporary passwords for newly created users.

use vstd::prelude::*;

verus! {

/// The length of a temporary password, in characters.
pub const PASSWORD_LENGTH: usize = 24;

/// The settings of a password generator: the length of the passwords, the
/// kinds of characters that they are drawn from, whether the characters
/// that are easily taken for another are left out, and whether every
/// password has to hold a character of each kind.
#[derive(Clone, Copy, Debug, PartialEq, Eq, Structural)]
pub struct PasswordRules {
    pub length: usize,
    pub numbers: bool,
    pub lowercase_letters: bool,
    pub uppercase_letters: bool,
    pub symbols: bool,
    pub spaces: bool,
    pub exclude_similar_characters: bool,
    pub strict: bool,
}

/// How many kinds of characters the rules draw from.
pub open spec fn kinds_of(rules: PasswordRules) -> nat {
    (if rules.numbers {
        1nat
    } else {
        0nat
    }) + (if rules.lowercase_letters {
        1nat
    } else {
        0nat
    }) + (if rules.uppercase_letters {
        1nat
    } else {
        0nat
    }) + (if rules.symbols {
        1nat
    } else {
        0nat
    }) + (if rules.spaces {
        1nat
    } else {
        0nat
    })
}

/// Whether a password can be generated under the rules: the length is not
/// 0, there is at least one kind of characters, and strict rules ask for no
/// more kinds than the password has characters.
pub open spec fn can_generate(rules: PasswordRules) -> bool {
    rules.length != 0 && kinds_of(rules) >= 1 && !(rules.strict && rules.length < kinds_of(rules))
}

/// Whether a character is an ASCII symbol: a printable ASCII character
/// that is neither a letter nor a digit nor the space.
pub open spec fn is_symbol(c: char) -> bool {
    '!' <= c <= '/' || ':' <= c <= '@' || '[' <= c <= '`' || '{' <= c <= '~'
}

/// Whether a character is easily taken for another: the digits 0 and 1,
/// the letters i, l, o, I and O, the quotes and the bar.
pub open spec fn is_similar(c: char) -> bool {
    c == '0' || c == '1' || c == 'i' || c == 'l' || c == 'o' || c == 'I' || c == 'O' || c == '"'
        || c == '\'' || c == '`' || c == '|'
}

/// Whether the rules let a password hold the character `c`.
pub open spec fn is_allowed(rules: PasswordRules, c: char) -> bool {
    &&& {
        ||| rules.numbers && '0' <= c <= '9'
        ||| rules.lowercase_letters && 'a' <= c <= 'z'
        ||| rules.uppercase_letters && 'A' <= c <= 'Z'
        ||| rules.symbols && is_symbol(c)
        ||| rules.spaces && c == ' '
    }
    &&& rules.exclude_similar_characters ==> !is_similar(c)
}

/// Whether every character of `password` is one that the rules let it
/// hold.
pub open spec fn is_drawn_from(rules: PasswordRules, password: Seq<char>) -> bool {
    forall|i: int| 0 <= i < password.len() ==> is_allowed(rules, #[trigger] password[i])
}

/// Whether `password` holds a decimal digit.
pub open spec fn holds_digit(password: Seq<char>) -> bool {
    exists|i: int| 0 <= i < password.len() && '0' <= #[trigger] password[i] <= '9'
}

/// Whether `password` holds a lowercase ASCII letter.
pub open spec fn holds_lowercase(password: Seq<char>) -> bool {
    exists|i: int| 0 <= i < password.len() && 'a' <= #[trigger] password[i] <= 'z'
}

/// Whether `password` holds an uppercase ASCII letter.
pub open spec fn holds_uppercase(password: Seq<char>) -> bool {
    exists|i: int| 0 <= i < password.len() && 'A' <= #[trigger] password[i] <= 'Z'
}

/// Whether `password` holds an ASCII symbol.
pub open spec fn holds_symbol(password: Seq<char>) -> bool {
    exists|i: int| 0 <= i < password.len() && is_symbol(#[trigger] password[i])
}

/// Whether `password` holds a space.
pub open spec fn holds_space(password: Seq<char>) -> bool {
    exists|i: int| 0 <= i < password.len() && #[trigger] password[i] == ' '
}

/// Whether `password` holds a character of each kind that the rules draw
/// from.
pub open spec fn holds_each_kind(rules: PasswordRules, password: Seq<char>) -> bool {
    &&& rules.numbers ==> holds_digit(password)
    &&& rules.lowercase_letters ==> holds_lowercase(password)
    &&& rules.uppercase_letters ==> holds_uppercase(password)
    &&& rules.symbols ==> holds_symbol(password)
    &&& rules.spaces ==> holds_space(password)
}

/// What holds of a password that was generated under `rules`: it has the
/// length that the rules say, every character is one that the rules let it
/// hold, and under strict rules it holds a character of each kind.
pub open spec fn is_generated_under(rules: PasswordRules, password: Seq<char>) -> bool {
    &&& password.len() == rules.length
    &&& is_drawn_from(rules, password)
    &&& rules.strict ==> holds_each_kind(rules, password)
}

/// `PasswordGenerator::generate_one` of passwords, for a generator with
/// the fields of `rules`: a random password, if a password can be generated
/// under the rules, else an error. The password has the length that the
/// rules say and is drawn from the kinds of characters that they name; a
/// strict generator draws again until each kind is there.
#[verifier::external_body]
fn generate_one(rules: PasswordRules) -> (r: Result<String, &'static str>)
    ensures
        r is Ok <==> can_generate(rules),
        r is Ok ==> is_generated_under(rules, r->Ok_0@),
{
    passwords::PasswordGenerator {
        length: rules.length,
        numbers: rules.numbers,
        lowercase_letters: rules.lowercase_letters,
        uppercase_letters: rules.uppercase_letters,
        symbols: rules.symbols,
        spaces: rules.spaces,
        exclude_similar_characters: rules.exclude_similar_characters,
        strict: rules.strict,
    }.generate_one()
}

/// A random password under `rules`.
pub fn generate_with(rules: PasswordRules) -> (r: Result<String, &'static str>)
    ensures
        r is Ok <==> can_generate(rules),
        r is Ok ==> is_generated_under(rules, r->Ok_0@),
{
    generate_one(rules)
}

/// Whether `password` is a temporary password: 24 printable ASCII
/// characters, among them a digit, a lowercase and an uppercase letter, a
/// symbol and a space, and none of the characters that are easily taken
/// for another.
pub open spec fn is_temporary_password(password: Seq<char>) -> bool {
    &&& password.len() == PASSWORD_LENGTH
    &&& holds_digit(password)
    &&& holds_lowercase(password)
    &&& holds_uppercase(password)
    &&& holds_symbol(password)
    &&& holds_space(password)
    &&& forall|i: int|
        0 <= i < password.len() ==> ' ' <= #[trigger] password[i] <= '~' && !is_similar(
            password[i],
        )
}

/// A random temporary password.
pub fn generate_password() -> (r: Result<String, &'static str>)
    ensures
        r is Ok,
        is_temporary_password(r->Ok_0@),
{
    generate_with(
        PasswordRules {
            length: PASSWORD_LENGTH,
            numbers: true,
            lowercase_letters: true,
            uppercase_letters: true,
            symbols: true,
            spaces: true,
            exclude_similar_characters: true,
            strict: true,
        },
    )
}

} // verus!
