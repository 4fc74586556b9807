//! What hands out the clients of a region.

use crate::cognito::CognitoClient;
use crate::errors::{LambdaError, LambdaErrorView};
use crate::secrets::Secrets;
use crate::token::CognitoTokenAuthorizer;
use vstd::prelude::*;

verus! {

/// What can hand out the provider's credentials.
pub trait SecretsManager {
    /// The credentials, or why they cannot be had.
    fn get_secrets(&self) -> Result<Secrets, LambdaError>;
}

/// Hands out the clients of one region.
#[derive(Debug)]
pub struct DefaultClientManager {
    region: String,
}

impl DefaultClientManager {
    /// The region whose clients are handed out.
    pub closed spec fn spec_region(&self) -> Seq<char> {
        self.region@
    }

    /// A manager for `region`.
    pub fn new(region: String) -> (r: DefaultClientManager)
        ensures
            r.spec_region() == region@,
    {
        DefaultClientManager { region }
    }

    /// The region whose clients are handed out.
    pub fn region(&self) -> (r: &str)
        ensures
            r@ == self.spec_region(),
    {
        self.region.as_str()
    }

    /// The provider's client for the credentials `secrets`.
    pub fn client_for(&self, secrets: Secrets) -> (r: CognitoClient)
        ensures
            r.spec_user_pool_id() == secrets.user_pool_id@,
            r.spec_client_id() == secrets.client_id@,
            r.spec_client_secret() == secrets.client_secret@,
    {
        CognitoClient::new(secrets.user_pool_id, secrets.client_id, secrets.client_secret)
    }

    /// The authorizer for the credentials `secrets`, in this region, with
    /// no keys fetched yet.
    pub fn authorizer_for(&self, secrets: Secrets) -> (r: CognitoTokenAuthorizer)
        ensures
            r.spec_user_pool_id() == secrets.user_pool_id@,
            r.spec_jwks_url() == secrets.jwks_url@,
            r.spec_region() == self.spec_region(),
            r.cache().fetched_at() is None,
            r.cache().keys().len() == 0,
    {
        CognitoTokenAuthorizer::new(secrets.user_pool_id, secrets.jwks_url, self.region.clone())
    }
}

/// A manager that hands out what it was given: for use in place of the
/// real one.
#[derive(Debug)]
pub struct MockClientManager {
    pub cognito_client: Option<CognitoClient>,
    pub token_authorizer: Option<CognitoTokenAuthorizer>,
    pub secrets: Option<Secrets>,
}

impl MockClientManager {
    /// The client that was set, or an internal error.
    pub fn get_client(self) -> (r: Result<CognitoClient, LambdaError>)
        ensures
            match r {
                Ok(client) => self.cognito_client == Some(client),
                Err(e) => self.cognito_client is None && e@ == LambdaErrorView::InternalError(
                    "Mock client not set"@,
                ),
            },
    {
        match self.cognito_client {
            Some(client) => Ok(client),
            None => Err(LambdaError::InternalError("Mock client not set".to_owned())),
        }
    }

    /// The authorizer that was set, or an internal error.
    pub fn get_authorizer(self) -> (r: Result<CognitoTokenAuthorizer, LambdaError>)
        ensures
            match r {
                Ok(authorizer) => self.token_authorizer == Some(authorizer),
                Err(e) => self.token_authorizer is None && e@ == LambdaErrorView::InternalError(
                    "Mock authorizer not set"@,
                ),
            },
    {
        match self.token_authorizer {
            Some(authorizer) => Ok(authorizer),
            None => Err(LambdaError::InternalError("Mock authorizer not set".to_owned())),
        }
    }
}

impl SecretsManager for MockClientManager {
    fn get_secrets(&self) -> (r: Result<Secrets, LambdaError>)
        ensures
            match r {
                Ok(secrets) => self.secrets == Some(secrets),
                Err(e) => self.secrets is None && e@ == LambdaErrorView::InternalError(
                    "Mock secrets not set"@,
                ),
            },
    {
        match &self.secrets {
            Some(secrets) => Ok(secrets.clone()),
            None => Err(LambdaError::InternalError("Mock secrets not set".to_owned())),
        }
    }
}

} // verus!
