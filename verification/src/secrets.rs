//! The credentials of the identity provider.

use vstd::prelude::*;

verus! {

/// The identifier of the user pool, the identifier and the secret of the
/// client, and the address at which the pool publishes its keys.
#[derive(Debug)]
pub struct Secrets {
    pub user_pool_id: String,
    pub client_id: String,
    pub client_secret: String,
    pub jwks_url: String,
}

impl Clone for Secrets {
    fn clone(&self) -> (r: Secrets)
        ensures
            r == *self,
    {
        Secrets {
            user_pool_id: self.user_pool_id.clone(),
            client_id: self.client_id.clone(),
            client_secret: self.client_secret.clone(),
            jwks_url: self.jwks_url.clone(),
        }
    }
}

} // verus!
