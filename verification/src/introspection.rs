//! The token introspection endpoint: resolves a previously granted
//! requesting-party token (RPT) to whether it is active and, if so, to the
//! permission set bound to it, with per-permission timestamps refined by
//! the token-level validity window.

use vstd::prelude::*;
use crate::errors::{ErrorMessage, is_unsupported_method, unsupported_method_type};
use crate::federation::clone_string_vec;
use crate::oidc::within_window;
use crate::request::HttpMethod;
use crate::storage::KeyValueStore;

verus! {

/// One permission bound to an RPT as stored by the authorization server:
/// the granted resource and scopes, with optional permission-level
/// timestamps.
#[derive(Debug)]
pub struct GrantedPermission {
    /// The identifier of the protected resource access was granted to.
    pub resource_id: String,
    /// The scopes to which access was granted for this resource.
    pub resource_scopes: Vec<String>,
    /// OPTIONAL. When this permission expires (Unix timestamp).
    pub exp: Option<i64>,
    /// OPTIONAL. When this permission was originally issued.
    pub iat: Option<i64>,
    /// OPTIONAL. The time before which this permission is not valid.
    pub nbf: Option<i64>,
}

/// The record an RPT resolves to: the token-level validity window and the
/// permissions bound to the token.
#[derive(Debug)]
pub struct RptData {
    /// When the token was issued (Unix timestamp).
    pub iat: i64,
    /// When the token expires (Unix timestamp).
    pub exp: i64,
    /// OPTIONAL. The time before which the token is not valid.
    pub nbf: Option<i64>,
    /// The permissions the token carries.
    pub permissions: Vec<GrantedPermission>,
}

/// One permission of a successful introspection answer: the granted
/// resource and scopes with the refined timestamps.
#[derive(Debug)]
pub struct SuccessfulResponse {
    /// REQUIRED. The identifier of the protected resource access to which
    /// was granted. It corresponds to a previously registered resource.
    pub resource_id: String,
    /// REQUIRED. The scopes to which access was granted for this resource.
    pub resource_scopes: Vec<String>,
    /// OPTIONAL. When this permission expires. A token-level expiry that
    /// pre-dates the permission-level one takes precedence.
    pub exp: Option<i64>,
    /// OPTIONAL. When this permission was originally issued. A token-level
    /// issue instant that post-dates the permission-level one takes
    /// precedence.
    pub iat: Option<i64>,
    /// OPTIONAL. The time before which this permission is not valid. A
    /// token-level not-before that post-dates the permission-level one
    /// takes precedence.
    pub nbf: Option<i64>,
}

/// The introspection object answered to the resource server: whether the
/// token is active and, if so, its validity window and permission set.
#[derive(Debug)]
pub struct IntrospectionResponse {
    /// Whether the introspected token is active at the instant of the call.
    pub active: bool,
    /// The token-level expiry instant, present only on an active answer.
    pub exp: Option<i64>,
    /// The token-level issue instant, present only on an active answer.
    pub iat: Option<i64>,
    /// The permissions the token carries, empty unless active.
    pub permissions: Vec<SuccessfulResponse>,
}

/// The refined per-permission expiry: an earlier token-level expiry governs.
pub open spec fn refined_exp(token_exp: i64, p_exp: Option<i64>) -> Option<i64> {
    match p_exp {
        Some(e) => if token_exp <= e {
            Some(token_exp)
        } else {
            Some(e)
        },
        None => None,
    }
}

/// The refined per-permission issue instant: a later token-level issue
/// instant governs.
pub open spec fn refined_iat(token_iat: i64, p_iat: Option<i64>) -> Option<i64> {
    match p_iat {
        Some(t) => if token_iat >= t {
            Some(token_iat)
        } else {
            Some(t)
        },
        None => None,
    }
}

/// The refined per-permission not-before: a later token-level not-before
/// governs.
pub open spec fn refined_nbf(token_nbf: Option<i64>, p_nbf: Option<i64>) -> Option<i64> {
    match p_nbf {
        Some(n) => match token_nbf {
            Some(t) => if t >= n {
                Some(t)
            } else {
                Some(n)
            },
            None => Some(n),
        },
        None => None,
    }
}

/// One answered permission carries the granted members of the stored one
/// and the timestamps refined by the token-level window of `data`.
pub open spec fn refines(out: SuccessfulResponse, g: GrantedPermission, data: RptData) -> bool {
    &&& out.resource_id@ == g.resource_id@
    &&& out.resource_scopes.deep_view() == g.resource_scopes.deep_view()
    &&& out.exp == refined_exp(data.exp, g.exp)
    &&& out.iat == refined_iat(data.iat, g.iat)
    &&& out.nbf == refined_nbf(data.nbf, g.nbf)
}

/// An inactive answer: no validity window, no permissions.
pub open spec fn is_inactive(resp: IntrospectionResponse) -> bool {
    &&& !resp.active
    &&& resp.exp is None
    &&& resp.iat is None
    &&& resp.permissions@.len() == 0
}

/// An active answer for the stored record `data`: the token-level window
/// and, permission for permission, the granted members with refined
/// timestamps.
pub open spec fn is_active_answer(resp: IntrospectionResponse, data: RptData) -> bool {
    &&& resp.active
    &&& resp.exp == Some(data.exp)
    &&& resp.iat == Some(data.iat)
    &&& resp.permissions@.len() == data.permissions@.len()
    &&& forall|i: int|
        0 <= i < data.permissions@.len() ==> refines(
            #[trigger] resp.permissions@[i],
            data.permissions@[i],
            data,
        )
}

/// Returns the smaller instant.
fn min64(a: i64, b: i64) -> (r: i64)
    ensures
        r == if a <= b {
            a
        } else {
            b
        },
{
    if a <= b {
        a
    } else {
        b
    }
}

/// Returns the later instant.
fn max64(a: i64, b: i64) -> (r: i64)
    ensures
        r == if a >= b {
            a
        } else {
            b
        },
{
    if a >= b {
        a
    } else {
        b
    }
}

/// Builds the answered form of one stored permission under the token-level
/// window of `data`.
fn refine_permission(g: &GrantedPermission, data: &RptData) -> (r: SuccessfulResponse)
    ensures
        refines(r, *g, *data),
{
    let exp: Option<i64> = match g.exp {
        Some(e) => Some(min64(data.exp, e)),
        None => None,
    };
    let iat: Option<i64> = match g.iat {
        Some(t) => Some(max64(data.iat, t)),
        None => None,
    };
    let nbf: Option<i64> = match g.nbf {
        Some(n) => match data.nbf {
            Some(t) => Some(max64(t, n)),
            None => Some(n),
        },
        None => None,
    };
    SuccessfulResponse {
        resource_id: g.resource_id.clone(),
        resource_scopes: clone_string_vec(&g.resource_scopes),
        exp,
        iat,
        nbf,
    }
}

/// Resolves an RPT: answers inactive when the token is unknown or its
/// token-level validity window does not admit `now`, and otherwise answers
/// active with the token-level window and the bound permissions, their
/// timestamps refined so that the stricter of the token-level and
/// permission-level bound governs. Invocations with any method but a
/// create-style one are rejected.
pub fn introspect_token<S: KeyValueStore<Value = RptData>>(
    store: &S,
    method: HttpMethod,
    token: &String,
    now: i64,
) -> (r: Result<IntrospectionResponse, ErrorMessage>)
    ensures
        match r {
            Ok(resp) => {
                &&& method == HttpMethod::Post
                &&& if store.kv().contains_key(token@) && within_window(
                    store.kv()[token@].iat,
                    store.kv()[token@].exp,
                    store.kv()[token@].nbf,
                    now,
                ) {
                    is_active_answer(resp, store.kv()[token@])
                } else {
                    is_inactive(resp)
                }
            },
            Err(e) => {
                &&& method != HttpMethod::Post
                &&& is_unsupported_method(e)
            },
        },
{
    if method != HttpMethod::Post {
        return Err(unsupported_method_type());
    }
    let data = match store.get(token) {
        Some(data) => data,
        None => {
            return Ok(
                IntrospectionResponse { active: false, exp: None, iat: None, permissions: Vec::new() },
            );
        },
    };
    let window_ok = data.iat <= now && data.exp >= now && (match data.nbf {
        Some(n) => n <= now,
        None => true,
    });
    if !window_ok {
        return Ok(
            IntrospectionResponse { active: false, exp: None, iat: None, permissions: Vec::new() },
        );
    }
    let n = data.permissions.len();
    let mut permissions: Vec<SuccessfulResponse> = Vec::new();
    let mut i: usize = 0;
    while i < n
        invariant
            i <= n,
            n == data.permissions@.len(),
            permissions@.len() == i,
            forall|j: int|
                0 <= j < i ==> refines(#[trigger] permissions@[j], data.permissions@[j], *data),
        decreases n - i,
    {
        let out = refine_permission(&data.permissions[i], data);
        permissions.push(out);
        i = i + 1;
    }
    Ok(IntrospectionResponse { active: true, exp: Some(data.exp), iat: Some(data.iat), permissions })
}

} // verus!
