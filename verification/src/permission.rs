//! The permission endpoint: converts a resource server's requested
//! permissions into a single opaque permission ticket, storing the pending
//! permission set for later resolution.

use vstd::prelude::*;
use crate::errors::{ErrorMessage, is_unsupported_method, unsupported_method_type};
use crate::ids::fresh_id;
use crate::request::HttpMethod;
use crate::storage::KeyValueStore;

verus! {

/// The mathematical content of a requested permission: its members as
/// plain character sequences.
pub struct PermissionView {
    pub resource_id: Seq<char>,
    pub resource_scopes: Seq<Seq<char>>,
}

/// One requested permission: a resource identifier and the scopes the
/// resource server requests on the client's behalf for that resource.
#[derive(Debug)]
pub struct Permission {
    /// REQUIRED. The identifier of the resource the permission is requested
    /// for. It must correspond to a previously registered resource.
    pub resource_id: String,
    /// REQUIRED. Zero or more scope identifiers the resource server
    /// requests access to for this resource.
    pub resource_scopes: Vec<String>,
}

impl View for Permission {
    type V = PermissionView;

    open spec fn view(&self) -> PermissionView {
        PermissionView {
            resource_id: self.resource_id@,
            resource_scopes: self.resource_scopes.deep_view(),
        }
    }
}

impl Permission {
    /// Assembles a requested permission from its members.
    pub fn new(resource_id: String, resource_scopes: Vec<String>) -> (r: Self)
        ensures
            r.resource_id == resource_id,
            r.resource_scopes == resource_scopes,
    {
        Self { resource_id, resource_scopes }
    }
}

/// A permission ticket together with the permission set it stands for: the
/// authorization server's record of a pending request.
#[derive(Debug)]
pub struct PermissionTicket {
    /// The opaque ticket identifier handed to the resource server.
    pub ticket: String,
    /// The permissions the ticket represents.
    pub permissions: Vec<Permission>,
}

/// A successful permission-endpoint answer: the single opaque ticket,
/// whatever the number of requested permissions.
#[derive(Debug)]
pub struct SuccessfulResponse {
    /// The opaque permission ticket.
    pub ticket: String,
}

impl SuccessfulResponse {
    /// Assembles a successful answer around the ticket.
    pub fn new(ticket: String) -> (r: Self)
        ensures
            r.ticket == ticket,
    {
        Self { ticket }
    }
}

/// Issues a permission ticket for the requested permissions: generates a
/// fresh opaque ticket identifier, independent of any caller-supplied
/// value, and stores the full requested permission set under it verbatim.
/// Repeated identical requests yield distinct tickets. Invocations with any
/// method but a create-style one are rejected.
///
/// The requested resource identifiers and scopes are stored as given; this
/// operation does not check them against the resource registry. The
/// `invalid_resource_id` and `invalid_scope` error values exist for
/// deployments that enforce that correspondence.
pub fn request_permission_ticket<S: KeyValueStore<Value = Vec<Permission>>>(
    store: &mut S,
    method: HttpMethod,
    requested_permissions: Vec<Permission>,
) -> (r: Result<SuccessfulResponse, ErrorMessage>)
    requires
        requested_permissions@.len() > 0,
    ensures
        match r {
            Ok(resp) => {
                &&& method == HttpMethod::Post
                &&& resp.ticket@.len() == 36
                &&& final(store).kv() == old(store).kv().insert(
                    resp.ticket@,
                    requested_permissions,
                )
            },
            Err(e) => {
                &&& method != HttpMethod::Post
                &&& is_unsupported_method(e)
                &&& final(store).kv() == old(store).kv()
            },
        },
{
    if method != HttpMethod::Post {
        return Err(unsupported_method_type());
    }
    let ticket = fresh_id();
    store.set(ticket.clone(), requested_permissions);
    Ok(SuccessfulResponse::new(ticket))
}

/// Distinct tickets resolve independently to the same stored permission
/// set: when two tickets with different identifiers are stored one after
/// the other for the same permission list, the store resolves each of the
/// two identifiers to that list.
pub proof fn lemma_distinct_tickets_resolve_alike(
    m: Map<Seq<char>, Vec<Permission>>,
    t1: Seq<char>,
    t2: Seq<char>,
    permissions: Vec<Permission>,
)
    requires
        t1 != t2,
    ensures
        m.insert(t1, permissions).insert(t2, permissions).contains_key(t1),
        m.insert(t1, permissions).insert(t2, permissions).contains_key(t2),
        m.insert(t1, permissions).insert(t2, permissions)[t1] == permissions,
        m.insert(t1, permissions).insert(t2, permissions)[t2] == permissions,
{
}

} // verus!
