//! The bodies of the requests and of their answers, and the rules that a
//! request has to meet before anything is done for it.

use crate::errors::{LambdaError, LambdaErrorView};
use crate::patterns::{
    email_pattern, pattern_compiles, username_pattern, valid_email, valid_username, Patterns,
};
use crate::permissions::Role;
use crate::text::{chars_of, decimal_digit, is_decimal_digit, unicode_lowercase, unicode_uppercase};
use vstd::prelude::*;
use vstd::utf8::encode_utf8;

verus! {

/// The length of a text in bytes of UTF-8.
pub open spec fn utf8_len(s: Seq<char>) -> nat {
    encode_utf8(s).len()
}

/// Whether the name of an organization has between 2 and 100 bytes.
pub open spec fn valid_organization_name(name: Seq<char>) -> bool {
    2 <= utf8_len(name) <= 100
}

/// Whether a password has at least 8 bytes.
pub open spec fn long_enough(password: Seq<char>) -> bool {
    utf8_len(password) >= 8
}

/// Whether a password holds an uppercase letter, a lowercase letter and a
/// decimal digit.
pub open spec fn strong_enough(password: Seq<char>) -> bool {
    &&& exists|i: int| 0 <= i < password.len() && unicode_uppercase(#[trigger] password[i])
    &&& exists|i: int| 0 <= i < password.len() && unicode_lowercase(#[trigger] password[i])
    &&& exists|i: int| 0 <= i < password.len() && is_decimal_digit(#[trigger] password[i])
}

/// How many of the first `n` characters of `s` are `c`.
pub open spec fn count_before(s: Seq<char>, c: char, n: int) -> nat
    decreases n,
{
    if n <= 0 {
        0
    } else {
        count_before(s, c, n - 1) + (if s[n - 1] == c {
            1nat
        } else {
            0nat
        })
    }
}

/// Whether a token has three parts separated by periods, that is, exactly
/// two periods.
pub open spec fn has_three_parts(token: Seq<char>) -> bool {
    count_before(token, '.', token.len() as int) == 2
}

/// What `validate` answers when the patterns compile: `Ok` without an
/// error, else the error.
pub open spec fn answers(r: Result<(), LambdaError>, verdict: Option<LambdaErrorView>) -> bool {
    match r {
        Ok(_) => verdict is None,
        Err(e) => verdict == Some(e@),
    }
}

/// What `validate` answers, the patterns compiled or not: if they do not
/// compile, an internal error.
pub open spec fn answers_if_compiled(
    r: Result<(), LambdaError>,
    verdict: Option<LambdaErrorView>,
) -> bool {
    if pattern_compiles(email_pattern()) && pattern_compiles(username_pattern()) {
        answers(r, verdict)
    } else {
        r is Err && r->Err_0@ == LambdaErrorView::InternalError("pattern does not compile"@)
    }
}

fn patterns_or_error() -> (r: Result<Patterns, LambdaError>)
    ensures
        match r {
            Ok(p) => pattern_compiles(email_pattern()) && pattern_compiles(username_pattern()),
            Err(e) => !(pattern_compiles(email_pattern()) && pattern_compiles(username_pattern()))
                && e@ == LambdaErrorView::InternalError("pattern does not compile"@),
        },
{
    match Patterns::new() {
        Some(p) => Ok(p),
        None => Err(LambdaError::InternalError("pattern does not compile".to_owned())),
    }
}

/// Whether a password holds an uppercase letter, a lowercase letter and a
/// decimal digit.
pub fn is_strong_enough(password: &str) -> (r: bool)
    ensures
        r == strong_enough(password@),
{
    let chars = chars_of(password);
    let n: usize = chars.len();
    let mut upper = false;
    let mut lower = false;
    let mut digit = false;
    let mut i: usize = 0;
    while i < n
        invariant
            n == chars@.len(),
            i <= n,
            upper == exists|j: int| 0 <= j < i && unicode_uppercase(#[trigger] chars@[j]),
            lower == exists|j: int| 0 <= j < i && unicode_lowercase(#[trigger] chars@[j]),
            digit == exists|j: int| 0 <= j < i && is_decimal_digit(#[trigger] chars@[j]),
        decreases n - i,
    {
        let c = chars[i];
        if c.is_uppercase() {
            upper = true;
        }
        if c.is_lowercase() {
            lower = true;
        }
        if decimal_digit(c) {
            digit = true;
        }
        i = i + 1;
    }
    upper && lower && digit
}

/// Whether a token has exactly two periods.
pub fn is_three_parts(token: &str) -> (r: bool)
    ensures
        r == has_three_parts(token@),
{
    let chars = chars_of(token);
    let n: usize = chars.len();
    let mut dots: usize = 0;
    let mut i: usize = 0;
    while i < n
        invariant
            n == chars@.len(),
            i <= n,
            dots == count_before(chars@, '.', i as int),
            dots <= i,
        decreases n - i,
    {
        if chars[i] == '.' {
            dots = dots + 1;
        }
        i = i + 1;
    }
    dots == 2
}

/// The body of a login request.
#[derive(Debug)]
pub struct LoginRequest {
    pub email: String,
    pub password: String,
}

impl LoginRequest {
    /// What is wrong with the request, if anything: first the email, then
    /// the length of the password.
    pub open spec fn verdict(&self) -> Option<LambdaErrorView> {
        if !valid_email(self.email@) {
            Some(LambdaErrorView::InvalidEmail)
        } else if !long_enough(self.password@) {
            Some(LambdaErrorView::InvalidPassword)
        } else {
            None
        }
    }

    /// Checks the request with patterns that are compiled already.
    pub fn validate_with(&self, patterns: &Patterns) -> (r: Result<(), LambdaError>)
        ensures
            answers(r, self.verdict()),
    {
        if !patterns.is_valid_email(self.email.as_str()) {
            return Err(LambdaError::InvalidEmail);
        }
        if self.password.as_str().as_bytes().len() < 8 {
            return Err(LambdaError::InvalidPassword);
        }
        Ok(())
    }

    /// Checks the request.
    pub fn validate(&self) -> (r: Result<(), LambdaError>)
        ensures
            answers_if_compiled(r, self.verdict()),
    {
        match patterns_or_error() {
            Ok(patterns) => self.validate_with(&patterns),
            Err(e) => Err(e),
        }
    }
}

/// The answer to a login.
#[derive(Debug)]
pub struct LoginResponse {
    pub access_token: String,
    pub id_token: String,
    pub refresh_token: String,
    pub user_id: String,
    pub organization_id: String,
}

/// The body of a signup request.
#[derive(Debug)]
pub struct SignupRequest {
    pub organization_name: String,
    pub user_name: String,
    pub email: String,
    pub password: String,
}

impl SignupRequest {
    /// What is wrong with the request, if anything: first the name of the
    /// organization, then the name of the user, the email, and the length
    /// and the strength of the password.
    pub open spec fn verdict(&self) -> Option<LambdaErrorView> {
        if !valid_organization_name(self.organization_name@) {
            Some(LambdaErrorView::InvalidOrganizationName)
        } else if !valid_username(self.user_name@) {
            Some(LambdaErrorView::InvalidUsername)
        } else if !valid_email(self.email@) {
            Some(LambdaErrorView::InvalidEmail)
        } else if !long_enough(self.password@) || !strong_enough(self.password@) {
            Some(LambdaErrorView::InvalidPassword)
        } else {
            None
        }
    }

    /// Checks the request with patterns that are compiled already.
    pub fn validate_with(&self, patterns: &Patterns) -> (r: Result<(), LambdaError>)
        ensures
            answers(r, self.verdict()),
    {
        let organization_len: usize = self.organization_name.as_str().as_bytes().len();
        if organization_len < 2 || organization_len > 100 {
            return Err(LambdaError::InvalidOrganizationName);
        }
        if !patterns.is_valid_username(self.user_name.as_str()) {
            return Err(LambdaError::InvalidUsername);
        }
        if !patterns.is_valid_email(self.email.as_str()) {
            return Err(LambdaError::InvalidEmail);
        }
        if self.password.as_str().as_bytes().len() < 8 {
            return Err(LambdaError::InvalidPassword);
        }
        if !is_strong_enough(self.password.as_str()) {
            return Err(LambdaError::InvalidPassword);
        }
        Ok(())
    }

    /// Checks the request.
    pub fn validate(&self) -> (r: Result<(), LambdaError>)
        ensures
            answers_if_compiled(r, self.verdict()),
    {
        match patterns_or_error() {
            Ok(patterns) => self.validate_with(&patterns),
            Err(e) => Err(e),
        }
    }
}

/// The answer to a signup.
#[derive(Debug)]
pub struct SignupResponse {
    pub message: String,
}

/// The body of a request for new tokens.
#[derive(Debug)]
pub struct RefreshTokenRequest {
    pub grant_type: String,
    pub refresh_token: String,
}

impl RefreshTokenRequest {
    /// What is wrong with the request, if anything: the grant type is not
    /// `refresh_token`, or the refresh token is empty.
    pub open spec fn verdict(&self) -> Option<LambdaErrorView> {
        if self.grant_type@ != "refresh_token"@ || self.refresh_token@.len() == 0 {
            Some(LambdaErrorView::InvalidRefreshToken)
        } else {
            None
        }
    }

    /// Checks the request.
    pub fn validate(&self) -> (r: Result<(), LambdaError>)
        ensures
            answers(r, self.verdict()),
    {
        let expected: String = "refresh_token".to_owned();
        if self.grant_type != expected {
            return Err(LambdaError::InvalidRefreshToken);
        }
        if self.refresh_token.as_str().is_empty() {
            return Err(LambdaError::InvalidRefreshToken);
        }
        Ok(())
    }
}

/// The answer to a request for new tokens.
#[derive(Debug)]
pub struct RefreshTokenResponse {
    pub access_token: String,
    pub refresh_token: String,
}

/// The body of a request to validate a token.
#[derive(Debug)]
pub struct TokenValidateRequest {
    pub token: String,
}

impl TokenValidateRequest {
    /// What is wrong with the request, if anything: the token is empty, or
    /// it does not have three parts.
    pub open spec fn verdict(&self) -> Option<LambdaErrorView> {
        if self.token@.len() == 0 {
            Some(LambdaErrorView::MissingToken)
        } else if !has_three_parts(self.token@) {
            Some(LambdaErrorView::InvalidToken)
        } else {
            None
        }
    }

    /// Checks the request.
    pub fn validate(&self) -> (r: Result<(), LambdaError>)
        ensures
            answers(r, self.verdict()),
    {
        if self.token.as_str().is_empty() {
            return Err(LambdaError::MissingToken);
        }
        if !is_three_parts(self.token.as_str()) {
            return Err(LambdaError::InvalidToken);
        }
        Ok(())
    }
}

/// The answer to a request to validate a token.
#[derive(Debug)]
pub struct TokenValidateResponse {
    pub user_id: String,
    pub organization_id: String,
}

/// The body of a request to create a user.
#[derive(Debug)]
pub struct CreateUserRequest {
    pub user_name: String,
    pub email: String,
    pub organization_id: String,
    pub organization_name: String,
    pub roles: Vec<Role>,
}

impl CreateUserRequest {
    /// What is wrong with the request, if anything: first the name of the
    /// user, then the email, the identifier and the name of the
    /// organization, and the roles.
    pub open spec fn verdict(&self) -> Option<LambdaErrorView> {
        if !valid_username(self.user_name@) {
            Some(LambdaErrorView::InvalidUsername)
        } else if !valid_email(self.email@) {
            Some(LambdaErrorView::InvalidEmail)
        } else if self.organization_id@.len() == 0 {
            Some(LambdaErrorView::MissingOrganizationId)
        } else if !valid_organization_name(self.organization_name@) {
            Some(LambdaErrorView::InvalidOrganizationName)
        } else if self.roles@.len() == 0 {
            Some(LambdaErrorView::MissingRoles)
        } else {
            None
        }
    }

    /// Checks the request with patterns that are compiled already.
    pub fn validate_with(&self, patterns: &Patterns) -> (r: Result<(), LambdaError>)
        ensures
            answers(r, self.verdict()),
    {
        if !patterns.is_valid_username(self.user_name.as_str()) {
            return Err(LambdaError::InvalidUsername);
        }
        if !patterns.is_valid_email(self.email.as_str()) {
            return Err(LambdaError::InvalidEmail);
        }
        if self.organization_id.as_str().is_empty() {
            return Err(LambdaError::MissingOrganizationId);
        }
        let organization_len: usize = self.organization_name.as_str().as_bytes().len();
        if organization_len < 2 || organization_len > 100 {
            return Err(LambdaError::InvalidOrganizationName);
        }
        if self.roles.len() == 0 {
            return Err(LambdaError::MissingRoles);
        }
        Ok(())
    }

    /// Checks the request.
    pub fn validate(&self) -> (r: Result<(), LambdaError>)
        ensures
            answers_if_compiled(r, self.verdict()),
    {
        match patterns_or_error() {
            Ok(patterns) => self.validate_with(&patterns),
            Err(e) => Err(e),
        }
    }
}

/// The answer to a request to create a user.
#[derive(Debug)]
pub struct CreateUserResponse {
    pub user_name: String,
    pub user_email: String,
    pub user_roles: Vec<Role>,
    pub user_tmp_password: String,
}

/// The body of a request to update a user.
#[derive(Debug)]
pub struct UpdateUserRequest {
    pub user_name: String,
    pub organization_name: String,
    pub roles: Vec<Role>,
}

impl UpdateUserRequest {
    /// What is wrong with the request, if anything: first the name of the
    /// user, then the name of the organization.
    pub open spec fn verdict(&self) -> Option<LambdaErrorView> {
        if !valid_username(self.user_name@) {
            Some(LambdaErrorView::InvalidUsername)
        } else if !valid_organization_name(self.organization_name@) {
            Some(LambdaErrorView::InvalidOrganizationName)
        } else {
            None
        }
    }

    /// Checks the request with patterns that are compiled already.
    pub fn validate_with(&self, patterns: &Patterns) -> (r: Result<(), LambdaError>)
        ensures
            answers(r, self.verdict()),
    {
        if !patterns.is_valid_username(self.user_name.as_str()) {
            return Err(LambdaError::InvalidUsername);
        }
        let organization_len: usize = self.organization_name.as_str().as_bytes().len();
        if organization_len < 2 || organization_len > 100 {
            return Err(LambdaError::InvalidOrganizationName);
        }
        Ok(())
    }

    /// Checks the request.
    pub fn validate(&self) -> (r: Result<(), LambdaError>)
        ensures
            answers_if_compiled(r, self.verdict()),
    {
        match patterns_or_error() {
            Ok(patterns) => self.validate_with(&patterns),
            Err(e) => Err(e),
        }
    }
}

/// The answer to a request to update or to delete a user.
#[derive(Debug)]
pub struct MessageResponse {
    pub message: String,
}

} // verus!
