//! OAuth authorization-server discovery metadata: the document retrieved
//! from an issuer's well-known location that declares its endpoint
//! locations and capabilities. The core reads only a few of these fields;
//! the rest travel through unchanged.

use vstd::prelude::*;

verus! {

/// Metadata describing an authorization server's configuration, retrieved
/// as a JSON document from its well-known location.
#[derive(Debug)]
pub struct AuthorizationServerMetadata {
    /// REQUIRED. The authorization server's issuer identifier: an `https`
    /// URL without query or fragment components.
    pub issuer: String,
    /// URL of the authorization endpoint. REQUIRED unless no grant type
    /// uses it.
    pub authorization_endpoint: String,
    /// URL of the token endpoint. REQUIRED unless only the implicit grant
    /// type is supported.
    pub token_endpoint: String,
    /// OPTIONAL. URL of the server's JWK Set document holding the signing
    /// keys clients use to validate its signatures.
    pub jwks_uri: Option<String>,
    /// OPTIONAL. URL of the dynamic client registration endpoint.
    pub registration_endpoint: Option<String>,
    /// RECOMMENDED. The OAuth `scope` values this server supports.
    pub scopes_supported: Option<Vec<String>>,
    /// REQUIRED. The OAuth `response_type` values this server supports.
    pub response_types_supported: Vec<String>,
    /// OPTIONAL. The OAuth `response_mode` values this server supports.
    pub response_modes_supported: Option<Vec<String>>,
    /// OPTIONAL. The OAuth grant type values this server supports.
    pub grant_types_supported: Option<Vec<String>>,
    /// OPTIONAL. Client authentication methods supported by the token
    /// endpoint.
    pub token_endpoint_auth_methods_supported: Option<Vec<String>>,
    /// OPTIONAL. JWS signing algorithms supported by the token endpoint
    /// for client authentication.
    pub token_endpoint_auth_signing_alg_values_supported: Option<Vec<String>>,
    /// OPTIONAL. URL of a page with human-readable developer documentation.
    pub service_documentation: Option<String>,
    /// OPTIONAL. Languages and scripts supported for the user interface.
    pub ui_locales_supported: Option<Vec<String>>,
    /// OPTIONAL. URL describing the server's data-usage policy for clients.
    pub op_policy_uri: Option<String>,
    /// OPTIONAL. URL of the server's terms of service.
    pub op_tos_uri: Option<String>,
    /// OPTIONAL. URL of the revocation endpoint.
    pub revocation_endpoint: Option<String>,
    /// OPTIONAL. Client authentication methods supported by the revocation
    /// endpoint.
    pub revocation_endpoint_auth_methods_supported: Option<Vec<String>>,
    /// OPTIONAL. JWS signing algorithms supported by the revocation
    /// endpoint for client authentication.
    pub revocation_endpoint_auth_signing_alg_values_supported: Option<Vec<String>>,
    /// OPTIONAL. URL of the token introspection endpoint.
    pub introspection_endpoint: Option<String>,
    /// OPTIONAL. Client authentication methods supported by the
    /// introspection endpoint.
    pub introspection_endpoint_auth_methods_supported: Option<Vec<String>>,
    /// OPTIONAL. JWS signing algorithms supported by the introspection
    /// endpoint for client authentication.
    pub introspection_endpoint_auth_signing_alg_values_supported: Option<Vec<String>>,
    /// OPTIONAL. PKCE code challenge methods supported by this server.
    pub code_challenge_methods_supported: Option<Vec<String>>,
}

} // verus!
