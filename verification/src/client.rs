//! The protocol client, which the routing layer shares with its handlers
//! and never looks into.

use vstd::prelude::*;
use std::sync::Arc;
use ruma_client::HttpsClient;

verus! {

/// The Matrix client of the ruma_client crate.
#[verifier::external_type_specification]
#[verifier::external_body]
#[verifier::reject_recursive_types(C)]
pub struct ExClient<C>(ruma_client::Client<C>);

/// The connector of the hyper_tls crate for the `https` scheme.
#[verifier::external_type_specification]
#[verifier::external_body]
#[verifier::reject_recursive_types(T)]
pub struct ExHttpsConnector<T>(hyper_tls::HttpsConnector<T>);

/// The connector of the hyper crate for the `http` scheme.
#[verifier::external_type_specification]
#[verifier::external_body]
#[verifier::reject_recursive_types(R)]
pub struct ExHttpConnector<R>(hyper::client::connect::HttpConnector<R>);

/// The resolver of the hyper crate that asks `getaddrinfo`.
#[verifier::external_type_specification]
#[verifier::external_body]
pub struct ExGaiResolver(hyper::client::connect::dns::GaiResolver);

/// The credentials of a logged-in user.
#[derive(Debug, PartialEq, Eq)]
pub struct Session {
    /// The token that authenticates requests.
    pub access_token: String,
    /// The user that the session belongs to.
    pub user_id: String,
    /// The device that the session belongs to.
    pub device_id: String,
}

impl Clone for Session {
    fn clone(&self) -> (copy: Session)
        ensures
            copy == *self,
    {
        Session {
            access_token: self.access_token.clone(),
            user_id: self.user_id.clone(),
            device_id: self.device_id.clone(),
        }
    }
}

/// Calls `Arc::clone`, which returns another pointer to the same client.
#[verifier::external_body]
pub(crate) fn share(client: &Arc<HttpsClient>) -> (shared: Arc<HttpsClient>)
    ensures
        shared == *client,
{
    Arc::clone(client)
}

} // verus!
