//! Federated-authorization data model: the protection API's resource and
//! scope descriptions, the tokens that guard the API, and the discovery
//! metadata the authorization server publishes for it.

use vstd::prelude::*;
use crate::errors::opt_view;
use crate::discovery::AuthorizationServerMetadata as OauthASM;

verus! {

/// The API presented by the authorization server to the resource server.
/// This API is OAuth-protected.
#[derive(Debug)]
pub struct ProtectionApi;

/// A protection API access token (PAT): an OAuth access token with the
/// scope `uma_protection`, used by the resource server as a client of the
/// authorization server's protection API.
#[derive(Debug)]
pub struct ProtectionApiAccessToken;

/// Discovery metadata of an authorization server that supports the
/// federated-authorization extension, declared in its discovery document
/// beside the plain OAuth metadata.
#[derive(Debug)]
pub struct AuthorizationServerMetadata {
    /// The OAuth authorization-server metadata this extends.
    pub oauth: OauthASM,
    /// REQUIRED. The endpoint URI at which the resource server requests
    /// permissions on the client's behalf.
    pub permission_endpoint: String,
    /// REQUIRED. The endpoint URI at which the resource server registers
    /// resources to put them under protection.
    pub resource_registration_endpoint: String,
}

/// The mathematical content of a resource description: every field as
/// plain character sequences.
pub struct ResourceDescriptionView {
    pub resource_scopes: Seq<Seq<char>>,
    pub description: Option<Seq<char>>,
    pub icon_uri: Option<Seq<char>>,
    pub name: Option<Seq<char>>,
    pub resource_type: Option<Seq<char>>,
}

/// A description of a protected resource, sufficient for an authorization
/// server to protect it. Identified externally by a server-assigned opaque
/// id; the id is the store key and is never embedded in the stored value.
#[derive(Debug)]
pub struct ResourceDescription {
    /// REQUIRED. The available scopes for this resource: a non-empty list
    /// of scope identifiers, each a plain string or a URI.
    pub resource_scopes: Vec<String>,
    /// OPTIONAL. A human-readable string describing the resource at length.
    pub description: Option<String>,
    /// OPTIONAL. A URI for a graphic icon representing the resource.
    pub icon_uri: Option<String>,
    /// OPTIONAL. A human-readable string naming the resource.
    pub name: Option<String>,
    /// OPTIONAL. A string identifying the semantics of the resource.
    pub resource_type: Option<String>,
}

impl View for ResourceDescription {
    type V = ResourceDescriptionView;

    open spec fn view(&self) -> ResourceDescriptionView {
        ResourceDescriptionView {
            resource_scopes: self.resource_scopes.deep_view(),
            description: opt_view(self.description),
            icon_uri: opt_view(self.icon_uri),
            name: opt_view(self.name),
            resource_type: opt_view(self.resource_type),
        }
    }
}

impl ResourceDescription {
    /// A description is well formed when it offers at least one scope.
    pub open spec fn well_formed(self) -> bool {
        self.resource_scopes@.len() > 0
    }
}

/// Copies an optional string; the copy reads the same.
pub fn clone_opt_string(o: &Option<String>) -> (r: Option<String>)
    ensures
        r == *o,
{
    match o {
        Some(s) => Some(s.clone()),
        None => None,
    }
}

/// Copies a list of strings; the copy reads the same, element for element.
pub fn clone_string_vec(v: &Vec<String>) -> (r: Vec<String>)
    ensures
        r.deep_view() == v.deep_view(),
{
    let r = v.clone();
    proof {
        assert forall|i: int| 0 <= i < v@.len() implies r@[i]@ == v@[i]@ by {
            assert(vstd::pervasive::cloned::<String>(v@[i], r@[i]));
        }
        assert(r.deep_view() =~= v.deep_view());
    }
    r
}

impl Clone for ResourceDescription {
    /// The copy denotes the same description.
    fn clone(&self) -> (r: Self)
        ensures
            r@ == self@,
    {
        ResourceDescription {
            resource_scopes: clone_string_vec(&self.resource_scopes),
            description: clone_opt_string(&self.description),
            icon_uri: clone_opt_string(&self.icon_uri),
            name: clone_opt_string(&self.name),
            resource_type: clone_opt_string(&self.resource_type),
        }
    }
}

/// A description of a scope, sufficient for an authorization server to
/// protect a resource offering it.
#[derive(Debug)]
pub struct ScopeDescription {
    /// OPTIONAL. A human-readable string describing the scope at length.
    pub description: Option<String>,
    /// A URI for a graphic icon representing the scope.
    pub icon_uri: String,
    /// OPTIONAL. A human-readable string naming the scope.
    pub name: Option<String>,
}

} // verus!
