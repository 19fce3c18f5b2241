//! The resource registration endpoint: create, read, update, delete and
//! list operations over resource descriptions, keyed by a server-assigned
//! opaque identifier.

use vstd::prelude::*;
use crate::errors::{
    ErrorMessage, is_invalid_request, is_resource_not_found, is_unsupported_method,
    invalid_request, resource_not_found, unsupported_method_type,
};
use crate::federation::ResourceDescription;
use crate::ids::fresh_id;
use crate::request::{HttpMethod, path_resource_id, resource_id_from_path};
use crate::storage::{KeyValueStore, key_views};

verus! {

/// The common members of a successful registration answer: the
/// server-assigned identifier, an optional policy-setting redirect URI, and
/// (for the read operation) the stored description.
#[derive(Debug)]
pub struct SuccessfulResponse {
    /// A string value repeating the server-defined identifier for the web
    /// resource corresponding to the registered resource. Required except
    /// for the delete and list operations.
    pub _id: String,
    /// OPTIONAL. A URI where the resource owner can immediately set or
    /// modify access policies for the resource just acted on.
    pub user_access_policy_uri: Option<String>,
    /// The stored description, returned by the read operation only.
    pub resource_description: Option<ResourceDescription>,
}

impl SuccessfulResponse {
    /// Assembles a successful registration answer from its members.
    pub fn new(
        _id: String,
        user_access_policy_uri: Option<String>,
        resource_description: Option<ResourceDescription>,
    ) -> (r: Self)
        ensures
            r._id == _id,
            r.user_access_policy_uri == user_access_policy_uri,
            r.resource_description == resource_description,
    {
        Self { _id, user_access_policy_uri, resource_description }
    }
}

/// Registers a new resource description: assigns a fresh opaque identifier,
/// stores the description under it, and answers with the identifier alone.
/// Invocations with any method but a create-style one are rejected.
pub fn create_resource_registration<S: KeyValueStore<Value = ResourceDescription>>(
    store: &mut S,
    method: HttpMethod,
    description: ResourceDescription,
) -> (r: Result<SuccessfulResponse, ErrorMessage>)
    requires
        description.well_formed(),
    ensures
        match r {
            Ok(resp) => {
                &&& method == HttpMethod::Post
                &&& resp._id@.len() == 36
                &&& resp.user_access_policy_uri is None
                &&& resp.resource_description is None
                &&& final(store).kv() == old(store).kv().insert(resp._id@, description)
            },
            Err(e) => {
                &&& method != HttpMethod::Post
                &&& is_unsupported_method(e)
                &&& final(store).kv() == old(store).kv()
            },
        },
{
    if method != HttpMethod::Post {
        return Err(unsupported_method_type());
    }
    let id = fresh_id();
    store.set(id.clone(), description);
    Ok(SuccessfulResponse::new(id, None, None))
}

/// Reads a previously registered resource description: answers with the
/// identifier taken from the request path and the stored description, or
/// with `not_found` if the identifier is absent. Invocations with any
/// method but a read-style one are rejected.
pub fn read_resource_registration<S: KeyValueStore<Value = ResourceDescription>>(
    store: &S,
    method: HttpMethod,
    path: &String,
) -> (r: Result<SuccessfulResponse, ErrorMessage>)
    ensures
        match r {
            Ok(resp) => {
                &&& method == HttpMethod::Get
                &&& store.kv().contains_key(path_resource_id(path@))
                &&& resp._id@ == path_resource_id(path@)
                &&& resp.user_access_policy_uri is None
                &&& resp.resource_description matches Some(d) && d@ == store.kv()[
                    path_resource_id(path@)
                ]@
            },
            Err(e) => {
                if method != HttpMethod::Get {
                    is_unsupported_method(e)
                } else {
                    &&& !store.kv().contains_key(path_resource_id(path@))
                    &&& is_resource_not_found(e)
                }
            },
        },
{
    if method != HttpMethod::Get {
        return Err(unsupported_method_type());
    }
    let id = resource_id_from_path(path);
    match store.get(&id) {
        Some(description) => Ok(SuccessfulResponse::new(id, None, Some(description.clone()))),
        None => Err(resource_not_found()),
    }
}

/// Replaces a resource description wholesale under the identifier taken
/// from the request path, and answers with the identifier. An identifier
/// not yet present is stored silently: replacement-style semantics carry no
/// not-found answer. Invocations with any method but an update-style one
/// are rejected.
pub fn update_resource_registration<S: KeyValueStore<Value = ResourceDescription>>(
    store: &mut S,
    method: HttpMethod,
    path: &String,
    description: ResourceDescription,
) -> (r: Result<SuccessfulResponse, ErrorMessage>)
    requires
        description.well_formed(),
    ensures
        match r {
            Ok(resp) => {
                &&& method == HttpMethod::Put
                &&& resp._id@ == path_resource_id(path@)
                &&& resp.user_access_policy_uri is None
                &&& resp.resource_description is None
                &&& final(store).kv() == old(store).kv().insert(
                    path_resource_id(path@),
                    description,
                )
            },
            Err(e) => {
                &&& method != HttpMethod::Put
                &&& is_unsupported_method(e)
                &&& final(store).kv() == old(store).kv()
            },
        },
{
    if method != HttpMethod::Put {
        return Err(unsupported_method_type());
    }
    let id = resource_id_from_path(path);
    store.set(id.clone(), description);
    Ok(SuccessfulResponse::new(id, None, None))
}

/// Deregisters the resource description stored under the identifier taken
/// from the request path, or answers `not_found` if the identifier is
/// absent. Invocations with any method but a delete-style one are rejected.
pub fn delete_resource_registration<S: KeyValueStore<Value = ResourceDescription>>(
    store: &mut S,
    method: HttpMethod,
    path: &String,
) -> (r: Result<SuccessfulResponse, ErrorMessage>)
    ensures
        match r {
            Ok(resp) => {
                &&& method == HttpMethod::Delete
                &&& old(store).kv().contains_key(path_resource_id(path@))
                &&& resp._id@ == path_resource_id(path@)
                &&& resp.user_access_policy_uri is None
                &&& resp.resource_description is None
                &&& final(store).kv() == old(store).kv().remove(path_resource_id(path@))
            },
            Err(e) => {
                &&& final(store).kv() == old(store).kv()
                &&& if method != HttpMethod::Delete {
                    is_unsupported_method(e)
                } else {
                    &&& !old(store).kv().contains_key(path_resource_id(path@))
                    &&& is_resource_not_found(e)
                }
            },
        },
{
    if method != HttpMethod::Delete {
        return Err(unsupported_method_type());
    }
    let id = resource_id_from_path(path);
    match store.del(&id) {
        Some(_) => Ok(SuccessfulResponse::new(id, None, None)),
        None => {
            proof {
                assert(old(store).kv().remove(id@) =~= old(store).kv());
            }
            Err(resource_not_found())
        },
    }
}

/// Lists the identifiers of all currently registered resource descriptions:
/// every stored identifier appears exactly once, in store-native order.
/// Invocations with any method but a read-style one are rejected, and any
/// request target other than the collection root is rejected as invalid.
pub fn list_resource_registration<S: KeyValueStore<Value = ResourceDescription>>(
    store: &S,
    method: HttpMethod,
    path: &String,
) -> (r: Result<Vec<String>, ErrorMessage>)
    ensures
        match r {
            Ok(ids) => {
                &&& method == HttpMethod::Get
                &&& path@ == "/"@
                &&& forall|i: int, j: int| 0 <= i < j < ids@.len() ==> ids@[i]@ != ids@[j]@
                &&& forall|i: int| 0 <= i < ids@.len() ==> store.kv().contains_key(
                    #[trigger] ids@[i]@,
                )
                &&& forall|k: Seq<char>| #[trigger] store.kv().contains_key(k) ==> key_views(
                    ids@,
                ).contains(k)
            },
            Err(e) => {
                if method != HttpMethod::Get {
                    is_unsupported_method(e)
                } else {
                    &&& path@ != "/"@
                    &&& is_invalid_request(e)
                }
            },
        },
{
    if method != HttpMethod::Get {
        return Err(unsupported_method_type());
    }
    let root = String::from_str("/");
    if !(*path == root) {
        return Err(invalid_request());
    }
    Ok(store.list())
}

/// Round trip: once a creation or update has stored `description` under
/// `id`, a read of that id resolves to exactly the stored description.
pub proof fn lemma_store_then_read(
    m: Map<Seq<char>, ResourceDescription>,
    id: Seq<char>,
    description: ResourceDescription,
)
    ensures
        m.insert(id, description).contains_key(id),
        m.insert(id, description)[id] == description,
{
}

/// Deletion is not idempotent: removing `id` leaves a store in which `id`
/// is absent, so a second deletion of the same id — like a deletion of a
/// never-stored id — finds nothing.
pub proof fn lemma_delete_then_absent(m: Map<Seq<char>, ResourceDescription>, id: Seq<char>)
    ensures
        !m.remove(id).contains_key(id),
{
}

/// A creation extends the listed identifiers by exactly the new id: the
/// domain the listing reflects afterwards is the one before plus `id`.
pub proof fn lemma_create_extends_listing(
    m: Map<Seq<char>, ResourceDescription>,
    id: Seq<char>,
    description: ResourceDescription,
)
    ensures
        m.insert(id, description).dom() == m.dom().insert(id),
{
    assert(m.insert(id, description).dom() =~= m.dom().insert(id));
}

} // verus!
