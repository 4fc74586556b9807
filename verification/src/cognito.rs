//! The client of the identity provider, as far as it computes: the secret
//! hash that goes with every request to authenticate, and the shape of what
//! the provider answers.

use crate::errors::{LambdaError, LambdaErrorView, ToLambdaError};
use crate::text::{first_where, lemma_first_where};
use vstd::prelude::*;
use vstd::string::{StringExecFns, StringSliceAdditionalSpecFns};
use vstd::utf8::encode_utf8;

verus! {

/// The HMAC-SHA256 of `message` under `key`.
pub uninterp spec fn hmac_sha256(key: Seq<u8>, message: Seq<u8>) -> Seq<u8>;

/// The standard base64 encoding of `bytes`, with padding.
pub uninterp spec fn base64_standard(bytes: Seq<u8>) -> Seq<char>;

/// `Mac::new_from_slice`, `update` and `finalize` of hmac, for `Hmac` over
/// `Sha256` of sha2: the HMAC-SHA256 of the message under the key, which has
/// 32 bytes. A key of any length is taken.
#[verifier::external_body]
fn hmac_sha256_digest(key: &[u8], message: &[u8]) -> (r: Option<Vec<u8>>)
    ensures
        r is Some,
        r->0@ == hmac_sha256(key@, message@),
        r->0@.len() == 32,
{
    let Ok(mut mac) = <hmac::Hmac<sha2::Sha256> as hmac::Mac>::new_from_slice(key) else {
        return None;
    };
    hmac::Mac::update(&mut mac, message);
    Some(hmac::Mac::finalize(mac).into_bytes().to_vec())
}

/// How many characters the standard base64 encoding of `len` bytes has:
/// four for every three bytes, the last three filled up.
pub open spec fn base64_len(len: nat) -> nat {
    4 * ((len + 2) / 3)
}

/// `Engine::encode` of base64 with the engine `STANDARD`: the standard
/// base64 encoding with padding, which ends in `=` unless the bytes come in
/// threes. It panics where the length of the result overflows.
#[verifier::external_body]
fn base64_encode(bytes: &[u8]) -> (r: String)
    requires
        bytes@.len() < 0x4000_0000,
    ensures
        r@ == base64_standard(bytes@),
        r@.len() == base64_len(bytes@.len()),
        bytes@.len() % 3 != 0 ==> r@.last() == '=',
{
    base64::Engine::encode(&base64::engine::general_purpose::STANDARD, bytes)
}

/// The secret hash of a user name for a client: the HMAC-SHA256 of the name
/// followed by the client's identifier, under the client's secret, in
/// standard base64.
pub open spec fn secret_hash(
    username: Seq<char>,
    client_id: Seq<char>,
    client_secret: Seq<char>,
) -> Seq<char> {
    base64_standard(hmac_sha256(encode_utf8(client_secret), encode_utf8(username + client_id)))
}

/// How many characters a secret hash has.
pub const SECRET_HASH_LENGTH: usize = 44;

/// What can go wrong at the identity provider's client.
#[derive(Clone, Copy, Debug, PartialEq, Eq, Structural)]
pub enum CognitoError {
    /// The client's secret has a length that the hash refuses.
    HmacInvalidLength,
}

/// The text of a `CognitoError`.
pub open spec fn cognito_error_text(e: CognitoError) -> Seq<char> {
    match e {
        CognitoError::HmacInvalidLength => "HMAC Invalid Length"@,
    }
}

impl CognitoError {
    /// The text of this error.
    pub fn to_string(&self) -> (r: String)
        ensures
            r@ == cognito_error_text(*self),
    {
        match self {
            CognitoError::HmacInvalidLength => "HMAC Invalid Length".to_owned(),
        }
    }
}

impl ToLambdaError for CognitoError {
    fn to_lambda_error(self) -> (r: LambdaError)
        ensures
            r@ == LambdaErrorView::InternalError(cognito_error_text(self)),
    {
        LambdaError::InternalError(self.to_string())
    }
}

/// The settings of the identity provider's client.
#[derive(Debug)]
pub struct CognitoClient {
    user_pool_id: String,
    client_id: String,
    client_secret: String,
}

impl CognitoClient {
    /// The identifier of the user pool.
    pub closed spec fn spec_user_pool_id(&self) -> Seq<char> {
        self.user_pool_id@
    }

    /// The identifier of the client.
    pub closed spec fn spec_client_id(&self) -> Seq<char> {
        self.client_id@
    }

    /// The secret of the client.
    pub closed spec fn spec_client_secret(&self) -> Seq<char> {
        self.client_secret@
    }

    /// The secret hash of `username` for this client.
    pub open spec fn spec_hash(&self, username: Seq<char>) -> Seq<char> {
        secret_hash(username, self.spec_client_id(), self.spec_client_secret())
    }

    /// A client with the given settings.
    pub fn new(user_pool_id: String, client_id: String, client_secret: String) -> (r: CognitoClient)
        ensures
            r.spec_user_pool_id() == user_pool_id@,
            r.spec_client_id() == client_id@,
            r.spec_client_secret() == client_secret@,
    {
        CognitoClient { user_pool_id, client_id, client_secret }
    }

    /// The identifier of the user pool.
    pub fn user_pool_id(&self) -> (r: &str)
        ensures
            r@ == self.spec_user_pool_id(),
    {
        self.user_pool_id.as_str()
    }

    /// The identifier of the client.
    pub fn client_id(&self) -> (r: &str)
        ensures
            r@ == self.spec_client_id(),
    {
        self.client_id.as_str()
    }

    /// The secret hash of `username` for this client: 44 characters, the
    /// last of them `=`. It is had for every name and every secret.
    pub fn calculate_hash(&self, username: &str) -> (r: Result<String, CognitoError>)
        ensures
            r is Ok,
            r->Ok_0@ == self.spec_hash(username@),
            r->Ok_0@.len() == SECRET_HASH_LENGTH,
            r->Ok_0@.last() == '=',
    {
        let mut message: String = username.to_owned();
        message.append(self.client_id.as_str());
        let digest = hmac_sha256_digest(
            self.client_secret.as_str().as_bytes(),
            message.as_str().as_bytes(),
        );
        match digest {
            Some(bytes) => Ok(base64_encode(bytes.as_slice())),
            None => Err(CognitoError::HmacInvalidLength),
        }
    }
}

/// The tokens that the provider hands out when somebody has authenticated;
/// `None` for one that its answer lacks.
#[derive(Debug)]
pub struct AuthenticationResult {
    pub access_token: Option<String>,
    pub id_token: Option<String>,
    pub refresh_token: Option<String>,
}

/// One attribute of a user at the provider.
#[derive(Debug)]
pub struct ProviderAttribute {
    pub name: String,
    pub value: Option<String>,
}

/// A user as the provider describes it after creating it.
#[derive(Debug)]
pub struct ProviderUser {
    pub attributes: Vec<ProviderAttribute>,
}

/// The index of the first attribute of `attributes` with the name `name`,
/// or the length of `attributes` if there is none.
pub open spec fn first_attribute(attributes: Seq<ProviderAttribute>, name: Seq<char>) -> int {
    first_where(attributes, |attribute: ProviderAttribute| has_name(attribute, name))
}

/// Whether an attribute has the name `name`.
pub open spec fn has_name(attribute: ProviderAttribute, name: Seq<char>) -> bool {
    attribute.name@ == name
}

/// `first_attribute` is `at` when no attribute before `at` has the name and
/// `at` is the end or an attribute that has it.
pub proof fn lemma_first_attribute(attributes: Seq<ProviderAttribute>, name: Seq<char>, at: int)
    requires
        0 <= at <= attributes.len(),
        forall|j: int| 0 <= j < at ==> (#[trigger] attributes[j]).name@ != name,
        at == attributes.len() || attributes[at].name@ == name,
    ensures
        first_attribute(attributes, name) == at,
{
    lemma_first_where(attributes, |attribute: ProviderAttribute| has_name(attribute, name), at);
}

/// The subject of a newly created user, or the internal error that says
/// what the provider's answer lacks: the user, the attribute `sub`, or its
/// value.
pub open spec fn subject_of(user: Option<ProviderUser>) -> Result<Seq<char>, LambdaErrorView> {
    match user {
        None => Err(LambdaErrorView::InternalError("user is None"@)),
        Some(u) => {
            let at = first_attribute(u.attributes@, "sub"@);
            if at >= u.attributes@.len() {
                Err(LambdaErrorView::InternalError("sub is None"@))
            } else {
                match u.attributes@[at].value {
                    None => Err(LambdaErrorView::InternalError("sub value is None"@)),
                    Some(value) => Ok(value@),
                }
            }
        },
    }
}

/// The subject of a newly created user.
pub fn created_subject(user: &Option<ProviderUser>) -> (r: Result<String, LambdaError>)
    ensures
        match r {
            Ok(sub) => subject_of(*user) == Ok::<Seq<char>, LambdaErrorView>(sub@),
            Err(e) => subject_of(*user) == Err::<Seq<char>, LambdaErrorView>(e@),
        },
{
    let u = match user {
        Some(u) => u,
        None => {
            return Err(LambdaError::InternalError("user is None".to_owned()));
        },
    };
    let wanted: String = "sub".to_owned();
    let n: usize = u.attributes.len();
    let mut i: usize = 0;
    while i < n
        invariant
            n == u.attributes@.len(),
            i <= n,
            *user == Some(*u),
            wanted@ == "sub"@,
            forall|j: int| 0 <= j < i ==> (#[trigger] u.attributes@[j]).name@ != "sub"@,
        decreases n - i,
    {
        if u.attributes[i].name == wanted {
            proof {
                lemma_first_attribute(u.attributes@, "sub"@, i as int);
            }
            return match &u.attributes[i].value {
                Some(value) => Ok(value.clone()),
                None => Err(LambdaError::InternalError("sub value is None".to_owned())),
            };
        }
        i = i + 1;
    }
    proof {
        lemma_first_attribute(u.attributes@, "sub"@, n as int);
    }
    Err(LambdaError::InternalError("sub is None".to_owned()))
}

} // verus!
