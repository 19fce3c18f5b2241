//! The roles and artifacts of the UMA grant: the parties around an
//! authorization server and the token and claim artifacts they exchange,
//! together with the grant-level discovery metadata.

use vstd::prelude::*;
use crate::discovery::AuthorizationServerMetadata as OauthASM;

verus! {

/// Discovery metadata an authorization server declares for the UMA grant,
/// beside the plain OAuth metadata.
#[derive(Debug)]
pub struct AuthorizationServerMetadata {
    /// The OAuth authorization-server metadata this extends.
    pub oauth: OauthASM,
    /// OPTIONAL. A static endpoint URI at which the server interacts with
    /// end-user requesting parties to gather claims.
    pub claims_interaction_endpoint: String,
    /// OPTIONAL. UMA profiles and extensions supported by this server, each
    /// named by an identifying URI.
    pub uma_profiles_supported: Vec<String>,
    /// OPTIONAL. One or more claims redirection URIs.
    pub claims_redirect_uris: Vec<String>,
}

/// An entity capable of granting access to a protected resource: the "user"
/// in User-Managed Access, an end-user or a legal person.
pub struct ResourceOwner;

/// A natural or legal person that uses a client to seek access to a
/// protected resource; it may or may not be the resource owner.
pub struct RequestingParty;

/// An application capable of requesting protected resources with the
/// resource owner's authorization and on the requesting party's behalf.
pub struct Client;

/// A server that hosts resources on a resource owner's behalf and accepts
/// and responds to requests for protected resources.
pub struct ResourceServer;

/// A server that protects, on a resource owner's behalf, resources hosted
/// at a resource server.
pub struct AuthorizationServer;

/// A requesting-party token (RPT): an OAuth access token associated with
/// the UMA grant, unique to a requesting party, client, authorization
/// server, resource server and resource owner.
pub struct RequestingPartyToken;

/// Authorized access to a particular resource with some number of scopes
/// bound to that resource. A permission ticket represents requested
/// permissions; an RPT represents granted ones.
pub struct Permission;

/// A correlation handle representing requested permissions, created and
/// maintained by the authorization server, passed to the client by the
/// resource server and presented by the client at the token endpoint.
pub struct PermissionTicket;

/// A statement of the value or values of one or more attributes of an
/// entity, collected and assessed against policy conditions.
pub struct Claim;

/// A package of claims provided directly by the client to the authorization
/// server through claims pushing.
pub struct ClaimToken;

/// A correlation handle issued by an authorization server that represents
/// claims collected during one authorization process, available to a client
/// for optimizing a future one.
pub struct PersistedClaimsToken;

} // verus!
