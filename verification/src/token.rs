//! Verification of compact signed tokens against the issuer's key set.

use crate::errors::{LambdaError, LambdaErrorView, ToLambdaError};
use crate::keyset::{
    first_key, has_key_id, lemma_first_key, FetchError, KeySetCache, KeySetPlan, SigningKey,
    SigningKeySet,
};
use vstd::prelude::*;
use vstd::string::StringExecFns;

verus! {

/// A decoded JSON document, held as the JSON library has it.
#[verifier::external_type_specification]
#[verifier::external_body]
pub struct ExJsonValue(serde_json::Value);

/// A key against which the token library checks signatures.
#[verifier::external_type_specification]
#[verifier::external_body]
pub struct ExDecodingKey(jsonwebtoken::DecodingKey);

/// One member of a JSON object, as far as it is read here.
pub enum JsonMember {
    /// A JSON string.
    Text(Seq<char>),
    /// A JSON number that is a non-negative integer below 2^64.
    Number(u64),
    /// Any other JSON value.
    Other,
}

/// The members of a JSON object by their names; no members for a document
/// that is no object.
pub uninterp spec fn json_members(value: serde_json::Value) -> Map<Seq<char>, JsonMember>;

/// The members of a JSON object in the order in which the object holds
/// them, each with its value written as JSON; no members for a document
/// that is no object.
pub uninterp spec fn json_claims(value: serde_json::Value) -> Seq<ClaimView>;

/// The text of the member `name`, if there is such a member and it is a
/// string.
pub open spec fn text_member(members: Map<Seq<char>, JsonMember>, name: Seq<char>) -> Option<
    Seq<char>,
> {
    if members.contains_key(name) {
        match members[name] {
            JsonMember::Text(s) => Some(s),
            _ => None,
        }
    } else {
        None
    }
}

/// The number of the member `name`, if there is such a member and it is a
/// non-negative integer below 2^64.
pub open spec fn number_member(members: Map<Seq<char>, JsonMember>, name: Seq<char>) -> Option<
    u64,
> {
    if members.contains_key(name) {
        match members[name] {
            JsonMember::Number(n) => Some(n),
            _ => None,
        }
    } else {
        None
    }
}

/// `Value::get` and `Value::as_str` of serde_json: the string under `name`
/// in a JSON object; `None` where the document is no object, has no such
/// member, or the member is no string.
#[verifier::external_body]
fn json_text(value: &serde_json::Value, name: &str) -> (r: Option<String>)
    ensures
        match r {
            Some(s) => text_member(json_members(*value), name@) == Some(s@),
            None => text_member(json_members(*value), name@) is None,
        },
{
    match value.get(name) {
        Some(member) => match member.as_str() {
            Some(s) => Some(s.to_owned()),
            None => None,
        },
        None => None,
    }
}

/// `Value::as_object`, `Map::iter` and `Value::to_string` of serde_json:
/// the members of a JSON object, each with its value written as JSON; none
/// for a document that is no object.
#[verifier::external_body]
fn json_all(value: &serde_json::Value) -> (r: Vec<Claim>)
    ensures
        claim_views(r@) == json_claims(*value),
{
    let mut claims = Vec::new();
    if let Some(map) = value.as_object() {
        for (name, member) in map.iter() {
            claims.push(Claim { name: name.clone(), json: member.to_string() });
        }
    }
    claims
}

/// `Value::get` and `Value::as_u64` of serde_json: the number under `name`
/// in a JSON object; `None` where the document is no object, has no such
/// member, or the member is no non-negative integer below 2^64.
#[verifier::external_body]
fn json_number(value: &serde_json::Value, name: &str) -> (r: Option<u64>)
    ensures
        r == number_member(json_members(*value), name@),
{
    match value.get(name) {
        Some(member) => member.as_u64(),
        None => None,
    }
}

/// The JSON document that a text holds, or the text of the JSON library's
/// error where the text is no JSON.
pub uninterp spec fn json_document(text: Seq<char>) -> Result<serde_json::Value, Seq<char>>;

/// The elements of the array that a JSON object holds under `name`; `None`
/// where the document is no object, has no such member, or the member is no
/// array.
pub uninterp spec fn json_list(value: serde_json::Value, name: Seq<char>) -> Option<
    Seq<serde_json::Value>,
>;

/// `from_str` of serde_json, for a `Value`: the document that the text
/// holds, or the error written as text.
#[verifier::external_body]
fn json_parse(text: &str) -> (r: Result<serde_json::Value, String>)
    ensures
        match r {
            Ok(value) => json_document(text@) == Ok::<serde_json::Value, Seq<char>>(value),
            Err(error) => json_document(text@) == Err::<serde_json::Value, Seq<char>>(error@),
        },
{
    match serde_json::from_str::<serde_json::Value>(text) {
        Ok(value) => Ok(value),
        Err(error) => Err(error.to_string()),
    }
}

/// `Value::get` and `Value::as_array` of serde_json: the elements of the
/// array under `name` in a JSON object; `None` where the document is no
/// object, has no such member, or the member is no array.
#[verifier::external_body]
fn json_array(value: &serde_json::Value, name: &str) -> (r: Option<Vec<serde_json::Value>>)
    ensures
        match r {
            Some(list) => json_list(*value, name@) == Some(list@),
            None => json_list(*value, name@) is None,
        },
{
    match value.get(name) {
        Some(member) => match member.as_array() {
            Some(list) => Some(list.clone()),
            None => None,
        },
        None => None,
    }
}

/// Why the token library refused a token.
#[derive(Clone, Copy, Debug, PartialEq, Eq, Structural)]
pub enum JwtFailure {
    /// The signature does not match the key.
    Signature,
    /// The header names another algorithm than RS256.
    Algorithm,
    /// The token does not have three parts, or a part cannot be decoded.
    Format,
}

/// The key identifier in the header of a token: `None` where the header
/// cannot be decoded, `Some(None)` where it names no key.
pub uninterp spec fn header_key_id(token: Seq<char>) -> Option<Option<Seq<char>>>;

/// The RSA key with the modulus `n` and the exponent `e`, both in URL-safe
/// base64 without padding; `None` where one of them is no such text.
pub uninterp spec fn rsa_key(n: Seq<char>, e: Seq<char>) -> Option<jsonwebtoken::DecodingKey>;

/// The payload of a token whose header names RS256 and whose signature
/// matches `key`, or why the token is refused. Neither expiry nor issuer
/// nor audience is looked at.
pub uninterp spec fn signed_payload(token: Seq<char>, key: jsonwebtoken::DecodingKey) -> Result<
    serde_json::Value,
    JwtFailure,
>;

/// The payload of a token of which only the form is checked, neither the
/// signature nor the algorithm, and which must hold the claim `exp`; or the
/// text of the token library's error.
pub uninterp spec fn unverified_payload(token: Seq<char>) -> Result<serde_json::Value, Seq<char>>;

/// `decode_header` of jsonwebtoken: the `kid` of the token's header, where
/// the token has three parts and the first is a header in URL-safe base64.
#[verifier::external_body]
fn decode_header_key_id(token: &str) -> (r: Option<Option<String>>)
    ensures
        match r {
            None => header_key_id(token@) is None,
            Some(None) => header_key_id(token@) == Some(None::<Seq<char>>),
            Some(Some(kid)) => header_key_id(token@) == Some(Some(kid@)),
        },
{
    match jsonwebtoken::decode_header(token) {
        Ok(header) => Some(header.kid),
        Err(_) => None,
    }
}

/// `DecodingKey::from_rsa_components` of jsonwebtoken: the RSA key with
/// this modulus and exponent, where both are URL-safe base64.
#[verifier::external_body]
fn rsa_decoding_key(n: &str, e: &str) -> (r: Option<jsonwebtoken::DecodingKey>)
    ensures
        r == rsa_key(n@, e@),
{
    match jsonwebtoken::DecodingKey::from_rsa_components(n, e) {
        Ok(key) => Some(key),
        Err(_) => None,
    }
}

/// `decode` of jsonwebtoken, with a validation that admits RS256 only and
/// checks no claim: the payload of a token that this key signed.
#[verifier::external_body]
fn decode_rs256(token: &str, key: &jsonwebtoken::DecodingKey) -> (r: Result<
    serde_json::Value,
    JwtFailure,
>)
    ensures
        r == signed_payload(token@, *key),
{
    let mut rules = jsonwebtoken::Validation::new(jsonwebtoken::Algorithm::RS256);
    rules.validate_exp = false;
    rules.validate_aud = false;
    rules.required_spec_claims.clear();
    match jsonwebtoken::decode::<serde_json::Value>(token, key, &rules) {
        Ok(data) => Ok(data.claims),
        Err(err) => match err.kind() {
            jsonwebtoken::errors::ErrorKind::InvalidSignature => Err(JwtFailure::Signature),
            jsonwebtoken::errors::ErrorKind::InvalidAlgorithm => Err(JwtFailure::Algorithm),
            _ => Err(JwtFailure::Format),
        },
    }
}

/// `decode` of jsonwebtoken with the signature check switched off and
/// neither expiry nor audience validated: the payload of a token of three
/// decodable parts that holds the claim `exp`.
#[verifier::external_body]
fn decode_unverified(token: &str) -> (r: Result<serde_json::Value, String>)
    ensures
        match r {
            Ok(value) => unverified_payload(token@) == Ok::<serde_json::Value, Seq<char>>(value),
            Err(text) => unverified_payload(token@) == Err::<serde_json::Value, Seq<char>>(text@),
        },
{
    let mut rules = jsonwebtoken::Validation::new(jsonwebtoken::Algorithm::RS256);
    rules.insecure_disable_signature_validation();
    rules.validate_exp = false;
    rules.validate_aud = false;
    let key = jsonwebtoken::DecodingKey::from_secret(&[]);
    match jsonwebtoken::decode::<serde_json::Value>(token, &key, &rules) {
        Ok(data) => Ok(data.claims),
        Err(err) => Err(err.to_string()),
    }
}

/// `get_current_timestamp` of jsonwebtoken: the seconds since the Unix
/// epoch on the system clock.
#[verifier::external_body]
fn current_timestamp() -> (r: u64) {
    jsonwebtoken::get_current_timestamp()
}

/// Why a token is not accepted.
#[derive(Clone, Copy, Debug, PartialEq, Eq, Structural)]
pub enum TokenError {
    /// The token cannot be decoded, names another algorithm than RS256, or
    /// lacks a claim.
    MalformedToken,
    /// No usable key of the key set is published under the token's key
    /// identifier: there is none, or it lacks modulus or exponent, or one
    /// of them is no URL-safe base64.
    UnknownKey,
    /// The signature does not match the key.
    SignatureInvalid,
    /// The token was issued by somebody else.
    IssuerMismatch,
    /// The token's time is over.
    Expired,
}

/// The two classes of refusal that a caller is told apart.
#[derive(Clone, Copy, Debug, PartialEq, Eq, Structural)]
pub enum TokenErrorClass {
    /// The token is not valid, and will not be.
    Invalid,
    /// The token was valid, and its time is over.
    Expired,
}

/// The class of a refusal.
pub open spec fn class_of(e: TokenError) -> TokenErrorClass {
    match e {
        TokenError::Expired => TokenErrorClass::Expired,
        _ => TokenErrorClass::Invalid,
    }
}

/// The error with which a refusal is answered: 401 in either class, and
/// another error text for an expired token than for an invalid one.
pub open spec fn lambda_error_of(e: TokenError) -> LambdaErrorView {
    match class_of(e) {
        TokenErrorClass::Expired => LambdaErrorView::TokenExpired,
        TokenErrorClass::Invalid => LambdaErrorView::InvalidSignature,
    }
}

impl TokenError {
    /// The class of this refusal.
    pub fn class(&self) -> (r: TokenErrorClass)
        ensures
            r == class_of(*self),
    {
        match self {
            TokenError::Expired => TokenErrorClass::Expired,
            _ => TokenErrorClass::Invalid,
        }
    }

    /// The text of this refusal.
    pub fn to_string(&self) -> (r: String)
        ensures
            r@ == token_error_text(*self),
    {
        match self {
            TokenError::MalformedToken => "Malformed token".to_owned(),
            TokenError::UnknownKey => "Key not found".to_owned(),
            TokenError::SignatureInvalid => "Invalid signature".to_owned(),
            TokenError::IssuerMismatch => "Invalid issuer".to_owned(),
            TokenError::Expired => "Token expired".to_owned(),
        }
    }
}

impl ToLambdaError for TokenError {
    /// The error with which this refusal is answered.
    fn to_lambda_error(self) -> (r: LambdaError)
        ensures
            r@ == lambda_error_of(self),
    {
        match self.class() {
            TokenErrorClass::Expired => LambdaError::TokenExpired,
            TokenErrorClass::Invalid => LambdaError::InvalidSignature,
        }
    }
}

/// The text of a refusal.
pub open spec fn token_error_text(e: TokenError) -> Seq<char> {
    match e {
        TokenError::MalformedToken => "Malformed token"@,
        TokenError::UnknownKey => "Key not found"@,
        TokenError::SignatureInvalid => "Invalid signature"@,
        TokenError::IssuerMismatch => "Invalid issuer"@,
        TokenError::Expired => "Token expired"@,
    }
}

/// The refusal that a failure of the token library stands for.
pub open spec fn failure_error(f: JwtFailure) -> TokenError {
    match f {
        JwtFailure::Signature => TokenError::SignatureInvalid,
        JwtFailure::Algorithm => TokenError::MalformedToken,
        JwtFailure::Format => TokenError::MalformedToken,
    }
}

/// The refusal that a failure of the token library stands for.
pub fn classify_failure(f: JwtFailure) -> (r: TokenError)
    ensures
        r == failure_error(f),
{
    match f {
        JwtFailure::Signature => TokenError::SignatureInvalid,
        JwtFailure::Algorithm => TokenError::MalformedToken,
        JwtFailure::Format => TokenError::MalformedToken,
    }
}

/// One claim of a payload, with its value as JSON text.
#[derive(Debug)]
pub struct Claim {
    pub name: String,
    pub json: String,
}

/// A `Claim`, with texts as sequences of characters.
pub struct ClaimView {
    pub name: Seq<char>,
    pub json: Seq<char>,
}

impl View for Claim {
    type V = ClaimView;

    open spec fn view(&self) -> ClaimView {
        ClaimView { name: self.name@, json: self.json@ }
    }
}

/// The claims of `claims` with their texts as sequences of characters.
pub open spec fn claim_views(claims: Seq<Claim>) -> Seq<ClaimView> {
    Seq::new(claims.len(), |i: int| claims[i]@)
}

/// Whether a claim is one of the four that every token has to hold.
pub open spec fn is_required_claim(name: Seq<char>) -> bool {
    name == "sub"@ || name == "iss"@ || name == "iat"@ || name == "exp"@
}

/// The claims of `claims` that are none of the four required ones, in
/// their order.
pub open spec fn further_claims(claims: Seq<ClaimView>) -> Seq<ClaimView>
    decreases claims.len(),
{
    if claims.len() == 0 {
        Seq::<ClaimView>::empty()
    } else if is_required_claim(claims.last().name) {
        further_claims(claims.drop_last())
    } else {
        further_claims(claims.drop_last()).push(claims.last())
    }
}

/// The claims of an accepted token: subject, issuer, and the times of issue
/// and of expiry in seconds since the Unix epoch; and whatever else the
/// payload holds, each claim with its value as JSON text.
#[derive(Debug)]
pub struct Claims {
    pub sub: String,
    pub iss: String,
    pub iat: u64,
    pub exp: u64,
    pub other: Vec<Claim>,
}

/// `Claims`, with texts as sequences of characters.
pub struct ClaimsView {
    pub sub: Seq<char>,
    pub iss: Seq<char>,
    pub iat: u64,
    pub exp: u64,
    pub other: Seq<ClaimView>,
}

impl View for Claims {
    type V = ClaimsView;

    open spec fn view(&self) -> ClaimsView {
        ClaimsView {
            sub: self.sub@,
            iss: self.iss@,
            iat: self.iat,
            exp: self.exp,
            other: claim_views(self.other@),
        }
    }
}

/// The claims as a payload holds them: the four required ones, `None` for
/// one that is missing or of another type, and all the claims with their
/// values as JSON text.
#[derive(Debug)]
pub struct RawClaims {
    pub sub: Option<String>,
    pub iss: Option<String>,
    pub iat: Option<u64>,
    pub exp: Option<u64>,
    pub claims: Vec<Claim>,
}

/// `RawClaims`, with texts as sequences of characters.
pub struct RawClaimsView {
    pub sub: Option<Seq<char>>,
    pub iss: Option<Seq<char>>,
    pub iat: Option<u64>,
    pub exp: Option<u64>,
    pub claims: Seq<ClaimView>,
}

impl View for RawClaims {
    type V = RawClaimsView;

    open spec fn view(&self) -> RawClaimsView {
        RawClaimsView {
            sub: match self.sub {
                Some(s) => Some(s@),
                None => None,
            },
            iss: match self.iss {
                Some(s) => Some(s@),
                None => None,
            },
            iat: self.iat,
            exp: self.exp,
            claims: claim_views(self.claims@),
        }
    }
}

/// The claims of a payload.
pub open spec fn raw_claims_of(payload: serde_json::Value) -> RawClaimsView {
    RawClaimsView {
        sub: text_member(json_members(payload), "sub"@),
        iss: text_member(json_members(payload), "iss"@),
        iat: number_member(json_members(payload), "iat"@),
        exp: number_member(json_members(payload), "exp"@),
        claims: json_claims(payload),
    }
}

/// What holds of the claims of a payload at the time `now`, for the issuer
/// `issuer`: a token that lacks one of the four claims is malformed; one
/// whose expiry is not after `now` is expired; one of another issuer is
/// mismatched; any other is accepted with its claims.
pub open spec fn claims_verdict(raw: RawClaimsView, issuer: Seq<char>, now: u64) -> Result<
    ClaimsView,
    TokenError,
> {
    if raw.sub is None || raw.iss is None || raw.iat is None || raw.exp is None {
        Err(TokenError::MalformedToken)
    } else if raw.exp->0 <= now {
        Err(TokenError::Expired)
    } else if raw.iss->0 != issuer {
        Err(TokenError::IssuerMismatch)
    } else {
        Ok(
            ClaimsView {
                sub: raw.sub->0,
                iss: raw.iss->0,
                iat: raw.iat->0,
                exp: raw.exp->0,
                other: further_claims(raw.claims),
            },
        )
    }
}

/// Whether `r` is the result `v`, texts taken as sequences of characters.
pub open spec fn claims_result_is(r: Result<Claims, TokenError>, v: Result<ClaimsView, TokenError>) -> bool {
    match r {
        Ok(claims) => v == Ok::<ClaimsView, TokenError>(claims@),
        Err(e) => v == Err::<ClaimsView, TokenError>(e),
    }
}

/// Checks the claims of a payload whose signature has been verified.
pub fn check_claims(raw: RawClaims, issuer: &str, now: u64) -> (r: Result<Claims, TokenError>)
    ensures
        claims_result_is(r, claims_verdict(raw@, issuer@, now)),
{
    let sub = match raw.sub {
        Some(s) => s,
        None => {
            return Err(TokenError::MalformedToken);
        },
    };
    let iss = match raw.iss {
        Some(s) => s,
        None => {
            return Err(TokenError::MalformedToken);
        },
    };
    let iat = match raw.iat {
        Some(n) => n,
        None => {
            return Err(TokenError::MalformedToken);
        },
    };
    let exp = match raw.exp {
        Some(n) => n,
        None => {
            return Err(TokenError::MalformedToken);
        },
    };
    if exp <= now {
        return Err(TokenError::Expired);
    }
    let expected: String = issuer.to_owned();
    if iss != expected {
        return Err(TokenError::IssuerMismatch);
    }
    let other = unrecognized(&raw.claims);
    Ok(Claims { sub, iss, iat, exp, other })
}

/// Whether a claim is one of the four that every token has to hold.
fn is_required(name: &String) -> (r: bool)
    ensures
        r == is_required_claim(name@),
{
    let sub: String = "sub".to_owned();
    let iss: String = "iss".to_owned();
    let iat: String = "iat".to_owned();
    let exp: String = "exp".to_owned();
    *name == sub || *name == iss || *name == iat || *name == exp
}

/// The claims of `claims` that are none of the four required ones.
pub fn unrecognized(claims: &Vec<Claim>) -> (r: Vec<Claim>)
    ensures
        claim_views(r@) == further_claims(claim_views(claims@)),
{
    let ghost all = claim_views(claims@);
    let n: usize = claims.len();
    let mut out: Vec<Claim> = Vec::new();
    let mut i: usize = 0;
    assert(all.take(0) =~= Seq::<ClaimView>::empty());
    assert(claim_views(out@) =~= Seq::<ClaimView>::empty());
    while i < n
        invariant
            n == claims@.len(),
            i <= n,
            all == claim_views(claims@),
            claim_views(out@) == further_claims(all.take(i as int)),
        decreases n - i,
    {
        let ghost before = claim_views(out@);
        proof {
            let next = all.take(i + 1);
            assert(next.drop_last() =~= all.take(i as int));
            assert(next.last() == claims@[i as int]@);
        }
        if !is_required(&claims[i].name) {
            out.push(Claim { name: claims[i].name.clone(), json: claims[i].json.clone() });
            assert(claim_views(out@) =~= before.push(claims@[i as int]@));
        }
        i = i + 1;
    }
    assert(all.take(n as int) =~= all);
    out
}

/// What holds of a token at the time `now`, for the key set `keys` and the
/// issuer `issuer`.
pub open spec fn token_verdict(
    token: Seq<char>,
    keys: Seq<SigningKey>,
    issuer: Seq<char>,
    now: u64,
) -> Result<ClaimsView, TokenError> {
    match header_key_id(token) {
        None => Err(TokenError::MalformedToken),
        Some(None) => Err(TokenError::MalformedToken),
        Some(Some(kid)) => {
            let at = first_key(keys, kid);
            if at >= keys.len() {
                Err(TokenError::UnknownKey)
            } else if keys[at].n is None || keys[at].e is None {
                Err(TokenError::UnknownKey)
            } else {
                match rsa_key(keys[at].n->0@, keys[at].e->0@) {
                    None => Err(TokenError::UnknownKey),
                    Some(key) => match signed_payload(token, key) {
                        Err(f) => Err(failure_error(f)),
                        Ok(payload) => claims_verdict(raw_claims_of(payload), issuer, now),
                    },
                }
            }
        },
    }
}

/// The issuer of the tokens of a user pool in a region.
pub open spec fn issuer_of(region: Seq<char>, user_pool_id: Seq<char>) -> Seq<char> {
    "https://cognito-idp."@ + region + ".amazonaws.com/"@ + user_pool_id
}

/// Verifies the tokens of one user pool against the pool's published keys.
#[derive(Debug)]
pub struct CognitoTokenAuthorizer {
    user_pool_id: String,
    jwks_url: String,
    region: String,
    jwks_cache: KeySetCache,
}

impl CognitoTokenAuthorizer {
    /// The identifier of the user pool.
    pub closed spec fn spec_user_pool_id(&self) -> Seq<char> {
        self.user_pool_id@
    }

    /// The address at which the pool's keys are published.
    pub closed spec fn spec_jwks_url(&self) -> Seq<char> {
        self.jwks_url@
    }

    /// The region of the user pool.
    pub closed spec fn spec_region(&self) -> Seq<char> {
        self.region@
    }

    /// The cache of the pool's keys.
    pub closed spec fn cache(&self) -> KeySetCache {
        self.jwks_cache
    }

    /// The issuer that the tokens of this pool name.
    pub open spec fn spec_issuer(&self) -> Seq<char> {
        issuer_of(self.spec_region(), self.spec_user_pool_id())
    }

    /// An authorizer that has fetched no keys yet.
    pub fn new(user_pool_id: String, jwks_url: String, region: String) -> (r:
        CognitoTokenAuthorizer)
        ensures
            r.spec_user_pool_id() == user_pool_id@,
            r.spec_jwks_url() == jwks_url@,
            r.spec_region() == region@,
            r.cache().fetched_at() is None,
            r.cache().keys().len() == 0,
    {
        CognitoTokenAuthorizer { user_pool_id, jwks_url, region, jwks_cache: KeySetCache::new() }
    }

    /// The address at which the pool's keys are published.
    pub fn jwks_url(&self) -> (r: &str)
        ensures
            r@ == self.spec_jwks_url(),
    {
        self.jwks_url.as_str()
    }

    /// The issuer that the tokens of this pool name.
    pub fn issuer(&self) -> (r: String)
        ensures
            r@ == self.spec_issuer(),
    {
        let mut out: String = "https://cognito-idp.".to_owned();
        out.append(self.region.as_str());
        out.append(".amazonaws.com/");
        out.append(self.user_pool_id.as_str());
        out
    }

    /// Whether a fetch of the keys has ever succeeded.
    pub fn has_keys(&self) -> (r: bool)
        ensures
            r == self.cache().fetched_at() is Some,
    {
        self.jwks_cache.has_keys()
    }

    /// Whether the keys have to be fetched before a token is verified at
    /// `now`.
    pub fn key_set_plan(&self, now: u64) -> (r: KeySetPlan)
        ensures
            r == (if crate::keyset::is_stale(self.cache().fetched_at(), now) {
                KeySetPlan::Refresh
            } else {
                KeySetPlan::UseCached
            }),
    {
        self.jwks_cache.plan(now)
    }

    /// Takes in what a fetch of the keys at `now` has brought: a set with at
    /// least one key replaces the held one, anything else leaves it as it
    /// was and is handed back as the error.
    pub fn record_key_set(&mut self, fetched: Result<SigningKeySet, FetchError>, now: u64) -> (r:
        Result<(), FetchError>)
        ensures
            final(self).spec_user_pool_id() == old(self).spec_user_pool_id(),
            final(self).spec_jwks_url() == old(self).spec_jwks_url(),
            final(self).spec_region() == old(self).spec_region(),
            match fetched {
                Ok(set) => if set.keys@.len() > 0 {
                    &&& r is Ok
                    &&& final(self).cache().keys() == set.keys@
                    &&& final(self).cache().fetched_at() == Some(now)
                } else {
                    &&& r is Err
                    &&& r->Err_0 is Empty
                    &&& final(self).cache() == old(self).cache()
                },
                Err(e) => {
                    &&& r == Err::<(), FetchError>(e)
                    &&& final(self).cache() == old(self).cache()
                },
            },
    {
        self.jwks_cache.complete_refresh(fetched, now)
    }

    /// Verifies `token` at the time `now` against the held keys.
    pub fn validate_token_at(&self, token: &str, now: u64) -> (r: Result<Claims, TokenError>)
        ensures
            claims_result_is(
                r,
                token_verdict(token@, self.cache().keys(), self.spec_issuer(), now),
            ),
    {
        let kid = match decode_header_key_id(token) {
            Some(Some(kid)) => kid,
            _ => {
                return Err(TokenError::MalformedToken);
            },
        };
        let key = match self.jwks_cache.key_set().find(kid.as_str()) {
            Some(key) => key,
            None => {
                return Err(TokenError::UnknownKey);
            },
        };
        let n = match &key.n {
            Some(n) => n,
            None => {
                return Err(TokenError::UnknownKey);
            },
        };
        let e = match &key.e {
            Some(e) => e,
            None => {
                return Err(TokenError::UnknownKey);
            },
        };
        let verifying_key = match rsa_decoding_key(n.as_str(), e.as_str()) {
            Some(verifying_key) => verifying_key,
            None => {
                return Err(TokenError::UnknownKey);
            },
        };
        let payload = match decode_rs256(token, &verifying_key) {
            Ok(payload) => payload,
            Err(f) => {
                return Err(classify_failure(f));
            },
        };
        let raw = RawClaims {
            sub: json_text(&payload, "sub"),
            iss: json_text(&payload, "iss"),
            iat: json_number(&payload, "iat"),
            exp: json_number(&payload, "exp"),
            claims: json_all(&payload),
        };
        assert(raw@ == raw_claims_of(payload));
        let issuer = self.issuer();
        check_claims(raw, issuer.as_str(), now)
    }

    /// Verifies `token` at the present time against the held keys. The
    /// result is that of `validate_token_at` at the second that the system
    /// clock shows.
    pub fn validate_token(&self, token: &str) -> (r: Result<Claims, TokenError>)
        ensures
            exists|now: u64|
                claims_result_is(
                    r,
                    #[trigger] token_verdict(token@, self.cache().keys(), self.spec_issuer(), now),
                ),
    {
        let now = current_timestamp();
        self.validate_token_at(token, now)
    }
}

/// The subject that a token names, read without any check of the signature;
/// or the text of what is wrong with the token.
pub open spec fn unverified_subject(token: Seq<char>) -> Result<Seq<char>, Seq<char>> {
    match unverified_payload(token) {
        Err(text) => Err(text),
        Ok(payload) => match text_member(json_members(payload), "sub"@) {
            Some(sub) => Ok(sub),
            None => Err("missing field `sub`"@),
        },
    }
}

/// Reads the subject of a token that the identity provider has just
/// issued. The signature is not checked.
pub fn extract_user_id_from_token(token: &str) -> (r: Result<String, String>)
    ensures
        match r {
            Ok(sub) => unverified_subject(token@) == Ok::<Seq<char>, Seq<char>>(sub@),
            Err(text) => unverified_subject(token@) == Err::<Seq<char>, Seq<char>>(text@),
        },
{
    match decode_unverified(token) {
        Err(text) => Err(text),
        Ok(payload) => match json_text(&payload, "sub") {
            Some(sub) => Ok(sub),
            None => Err("missing field `sub`".to_owned()),
        },
    }
}

/// A token whose header names a key under which no key of the set is
/// published is refused for its unknown key, whatever else it holds.
pub proof fn lemma_absent_key_is_unknown(
    token: Seq<char>,
    keys: Seq<SigningKey>,
    issuer: Seq<char>,
    now: u64,
    kid: Seq<char>,
)
    requires
        header_key_id(token) == Some(Some(kid)),
        forall|i: int| 0 <= i < keys.len() ==> !has_key_id(#[trigger] keys[i], kid),
    ensures
        token_verdict(token, keys, issuer, now) == Err::<ClaimsView, TokenError>(
            TokenError::UnknownKey,
        ),
{
    lemma_first_key(keys, kid, keys.len() as int);
}

/// Whether `key` of the key set has signed `token`, whose header names the
/// key, and `payload` is what the token holds.
pub open spec fn is_signed_by(
    token: Seq<char>,
    keys: Seq<SigningKey>,
    at: int,
    payload: serde_json::Value,
) -> bool {
    &&& header_key_id(token) is Some
    &&& header_key_id(token)->0 is Some
    &&& at == first_key(keys, header_key_id(token)->0->0)
    &&& 0 <= at < keys.len()
    &&& keys[at].n is Some
    &&& keys[at].e is Some
    &&& rsa_key(keys[at].n->0@, keys[at].e->0@) is Some
    &&& signed_payload(token, rsa_key(keys[at].n->0@, keys[at].e->0@)->0) == Ok::<
        serde_json::Value,
        JwtFailure,
    >(payload)
}

/// Of a token that a key of the set has signed and that holds the four
/// claims: if its expiry is not after `now`, it is refused as expired;
/// else, if it names another issuer, it is refused for the issuer; else it
/// is accepted, with the subject that its payload names.
pub proof fn lemma_signed_token_verdict(
    token: Seq<char>,
    keys: Seq<SigningKey>,
    issuer: Seq<char>,
    now: u64,
    at: int,
    payload: serde_json::Value,
)
    requires
        is_signed_by(token, keys, at, payload),
        raw_claims_of(payload).sub is Some,
        raw_claims_of(payload).iss is Some,
        raw_claims_of(payload).iat is Some,
        raw_claims_of(payload).exp is Some,
    ensures
        ({
            let raw = raw_claims_of(payload);
            let verdict = token_verdict(token, keys, issuer, now);
            &&& raw.exp->0 <= now ==> verdict == Err::<ClaimsView, TokenError>(TokenError::Expired)
            &&& raw.exp->0 > now && raw.iss->0 != issuer ==> verdict == Err::<
                ClaimsView,
                TokenError,
            >(TokenError::IssuerMismatch)
            &&& raw.exp->0 > now && raw.iss->0 == issuer ==> verdict is Ok && verdict->Ok_0.sub
                == raw.sub->0
        }),
{
}

/// The claims of every accepted token expire after `now` and name the
/// expected issuer.
pub proof fn lemma_accepted_claims(
    token: Seq<char>,
    keys: Seq<SigningKey>,
    issuer: Seq<char>,
    now: u64,
)
    requires
        token_verdict(token, keys, issuer, now) is Ok,
    ensures
        token_verdict(token, keys, issuer, now)->Ok_0.exp > now,
        token_verdict(token, keys, issuer, now)->Ok_0.iss == issuer,
{
}

/// An expired token and a token that is refused for any other reason are
/// answered with the same status, 401, and with different error texts.
pub proof fn lemma_expired_is_told_apart(e: TokenError)
    requires
        e != TokenError::Expired,
    ensures
        crate::errors::status_of(lambda_error_of(e)) == 401,
        crate::errors::status_of(lambda_error_of(TokenError::Expired)) == 401,
        crate::errors::error_text_of(lambda_error_of(e)) != crate::errors::error_text_of(
            lambda_error_of(TokenError::Expired),
        ),
{
    reveal_strlit("Token expired");
    reveal_strlit("Invalid signature");
    assert("Token expired"@.len() != "Invalid signature"@.len());
}

/// Whether `text` is the text `member`, or both are missing.
pub open spec fn is_text(text: Option<String>, member: Option<Seq<char>>) -> bool {
    match text {
        Some(t) => member == Some(t@),
        None => member is None,
    }
}

/// Whether `key` is the key that the published entry `entry` describes:
/// each of its four fields is the string that the entry holds under `kid`,
/// `alg`, `n` and `e`, and is missing where the entry holds none.
pub open spec fn is_key_of(key: SigningKey, entry: serde_json::Value) -> bool {
    &&& is_text(key.kid, text_member(json_members(entry), "kid"@))
    &&& is_text(key.alg, text_member(json_members(entry), "alg"@))
    &&& is_text(key.n, text_member(json_members(entry), "n"@))
    &&& is_text(key.e, text_member(json_members(entry), "e"@))
}

/// Whether `keys` are the keys that the published entries describe, in
/// their order.
pub open spec fn are_keys_of(keys: Seq<SigningKey>, entries: Seq<serde_json::Value>) -> bool {
    &&& keys.len() == entries.len()
    &&& forall|i: int| 0 <= i < keys.len() ==> is_key_of(#[trigger] keys[i], entries[i])
}

/// What a published document gives: the keys that the entries of its array
/// `keys` describe; a document without such an array is no key set.
pub open spec fn is_key_set_of(r: Result<SigningKeySet, FetchError>, jwks: serde_json::Value) -> bool {
    match json_list(jwks, "keys"@) {
        None => r is Err && r->Err_0 is Parse && r->Err_0->Parse_0@ == "Missing keys"@,
        Some(entries) => r is Ok && are_keys_of(r->Ok_0.keys@, entries),
    }
}

/// The key set that a published document holds.
pub fn key_set_from_json(jwks: &serde_json::Value) -> (r: Result<SigningKeySet, FetchError>)
    ensures
        is_key_set_of(r, *jwks),
{
    let entries = match json_array(jwks, "keys") {
        Some(entries) => entries,
        None => {
            return Err(FetchError::Parse("Missing keys".to_owned()));
        },
    };
    let n: usize = entries.len();
    let mut keys: Vec<SigningKey> = Vec::new();
    let mut i: usize = 0;
    while i < n
        invariant
            n == entries@.len(),
            i <= n,
            keys@.len() == i,
            forall|j: int| 0 <= j < i ==> is_key_of(#[trigger] keys@[j], entries@[j]),
        decreases n - i,
    {
        let key = SigningKey {
            kid: json_text(&entries[i], "kid"),
            alg: json_text(&entries[i], "alg"),
            n: json_text(&entries[i], "n"),
            e: json_text(&entries[i], "e"),
        };
        assert(is_key_of(key, entries@[i as int]));
        keys.push(key);
        i = i + 1;
    }
    Ok(SigningKeySet { keys })
}

/// The key set that the text of a published document holds: a text that is
/// no JSON is no key set, and the error says why; else what the document
/// gives.
pub fn key_set_from_text(text: &str) -> (r: Result<SigningKeySet, FetchError>)
    ensures
        match json_document(text@) {
            Err(error) => r is Err && r->Err_0 is Parse && r->Err_0->Parse_0@ == error,
            Ok(jwks) => is_key_set_of(r, jwks),
        },
{
    match json_parse(text) {
        Err(error) => Err(FetchError::Parse(error)),
        Ok(jwks) => key_set_from_json(&jwks),
    }
}

} // verus!
