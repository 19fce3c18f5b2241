//! Uniform error taxonomy shared by every component: a wire-serializable
//! error body (`ErrorMessage`) and the request-validation failure kinds of
//! the resource registration endpoint.

use vstd::prelude::*;

verus! {

/// A JSON-encodable error answer of the protection API, together with the
/// HTTP status code the response carrying it must use. The status code
/// travels in the transport line, never in the body.
#[derive(Debug)]
pub struct ErrorMessage {
    /// HTTP status code for responses carrying this error message.
    pub status_code: u16,
    /// A single short machine-readable error code (the `error` member of
    /// the serialized body).
    pub error_code: String,
    /// Optional human-readable text providing additional information.
    pub error_description: Option<String>,
    /// Optional URI of a human-readable page with information about the error.
    pub error_uri: Option<String>,
}

/// The view of an optional string: its character sequence, if present.
pub open spec fn opt_view(o: Option<String>) -> Option<Seq<char>> {
    match o {
        Some(s) => Some(s@),
        None => None,
    }
}

/// The `not_found` error: the referenced resource is absent, status 404.
pub open spec fn is_resource_not_found(e: ErrorMessage) -> bool {
    &&& e.status_code == 404
    &&& e.error_code@ == "not_found"@
    &&& opt_view(e.error_description) == Some("The referenced resource could not be found."@)
    &&& e.error_uri is None
}

/// The `unsupported_method_type` error: the request used an HTTP method the
/// operation does not support, status 405.
pub open spec fn is_unsupported_method(e: ErrorMessage) -> bool {
    &&& e.status_code == 405
    &&& e.error_code@ == "unsupported_method_type"@
    &&& opt_view(e.error_description) == Some("The request used an unsupported HTTP method."@)
    &&& e.error_uri is None
}

/// The `invalid_request` error: a missing, repeated or invalid parameter, or
/// an otherwise malformed request, status 400.
pub open spec fn is_invalid_request(e: ErrorMessage) -> bool {
    &&& e.status_code == 400
    &&& e.error_code@ == "invalid_request"@
    &&& opt_view(e.error_description) == Some(
        "The request is missing a required parameter, includes an invalid parameter value, includes a parameter more than once, or is otherwise malformed."@,
    )
    &&& e.error_uri is None
}

/// The `invalid_resource_id` error: a permission request referenced a
/// resource identifier unknown to the authorization server, status 400.
pub open spec fn is_invalid_resource_id(e: ErrorMessage) -> bool {
    &&& e.status_code == 400
    &&& e.error_code@ == "invalid_resource_id"@
    &&& opt_view(e.error_description) == Some(
        "At least one of the provided resource identifiers was not found at the authorization server."@,
    )
    &&& e.error_uri is None
}

/// The `invalid_scope` error: a permission request referenced a scope that
/// was not registered for the referenced resource, status 400.
pub open spec fn is_invalid_scope(e: ErrorMessage) -> bool {
    &&& e.status_code == 400
    &&& e.error_code@ == "invalid_scope"@
    &&& opt_view(e.error_description) == Some(
        "At least one of the scopes included in the request was not registered previously by this resource server for the referenced resource."@,
    )
    &&& e.error_uri is None
}

/// The catch-all `internal_server_error`, status 500. It never carries the
/// underlying cause's message.
pub open spec fn is_internal_server_error(e: ErrorMessage) -> bool {
    &&& e.status_code == 500
    &&& e.error_code@ == "internal_server_error"@
    &&& opt_view(e.error_description) == Some(
        "Something went wrong. Could not create a more specific error."@,
    )
    &&& e.error_uri is None
}

impl ErrorMessage {
    /// Assembles an error message from its four members.
    pub fn new(
        status_code: u16,
        error_code: String,
        error_description: Option<String>,
        error_uri: Option<String>,
    ) -> (r: Self)
        ensures
            r.status_code == status_code,
            r.error_code == error_code,
            r.error_description == error_description,
            r.error_uri == error_uri,
    {
        Self { status_code, error_code, error_description, error_uri }
    }
}

impl Default for ErrorMessage {
    /// The default error is the catch-all internal server error.
    fn default() -> (r: Self)
        ensures
            is_internal_server_error(r),
    {
        internal_server_error()
    }
}

/// Builds the `not_found` error answer.
pub fn resource_not_found() -> (r: ErrorMessage)
    ensures
        is_resource_not_found(r),
{
    ErrorMessage {
        status_code: 404,
        error_code: String::from_str("not_found"),
        error_description: Some(String::from_str("The referenced resource could not be found.")),
        error_uri: None,
    }
}

/// Builds the `unsupported_method_type` error answer.
pub fn unsupported_method_type() -> (r: ErrorMessage)
    ensures
        is_unsupported_method(r),
{
    ErrorMessage {
        status_code: 405,
        error_code: String::from_str("unsupported_method_type"),
        error_description: Some(String::from_str("The request used an unsupported HTTP method.")),
        error_uri: None,
    }
}

/// Builds the `invalid_request` error answer.
pub fn invalid_request() -> (r: ErrorMessage)
    ensures
        is_invalid_request(r),
{
    ErrorMessage {
        status_code: 400,
        error_code: String::from_str("invalid_request"),
        error_description: Some(
            String::from_str(
                "The request is missing a required parameter, includes an invalid parameter value, includes a parameter more than once, or is otherwise malformed.",
            ),
        ),
        error_uri: None,
    }
}

/// Builds the `invalid_resource_id` error answer. The permission endpoint
/// defines this value for deployments that enforce that every referenced
/// resource identifier was previously registered.
pub fn invalid_resource_id() -> (r: ErrorMessage)
    ensures
        is_invalid_resource_id(r),
{
    ErrorMessage {
        status_code: 400,
        error_code: String::from_str("invalid_resource_id"),
        error_description: Some(
            String::from_str(
                "At least one of the provided resource identifiers was not found at the authorization server.",
            ),
        ),
        error_uri: None,
    }
}

/// Builds the `invalid_scope` error answer. The permission endpoint defines
/// this value for deployments that enforce registered-scope membership.
pub fn invalid_scope() -> (r: ErrorMessage)
    ensures
        is_invalid_scope(r),
{
    ErrorMessage {
        status_code: 400,
        error_code: String::from_str("invalid_scope"),
        error_description: Some(
            String::from_str(
                "At least one of the scopes included in the request was not registered previously by this resource server for the referenced resource.",
            ),
        ),
        error_uri: None,
    }
}

/// Builds the catch-all `internal_server_error` answer.
pub fn internal_server_error() -> (r: ErrorMessage)
    ensures
        is_internal_server_error(r),
{
    ErrorMessage {
        status_code: 500,
        error_code: String::from_str("internal_server_error"),
        error_description: Some(
            String::from_str("Something went wrong. Could not create a more specific error."),
        ),
        error_uri: None,
    }
}

/// The ways a request to the resource registration endpoint can be rejected
/// before any operation runs.
#[derive(Debug)]
pub enum ResourceRegistrationFailure {
    /// The referenced resource cannot be found: HTTP 404, `not_found`.
    ResourceNotFound,
    /// The request used an unsupported HTTP method: HTTP 405,
    /// `unsupported_method_type`.
    UnsupportedMethod,
    /// The request is missing a required parameter, includes an invalid or
    /// repeated parameter, or is otherwise malformed: HTTP 400,
    /// `invalid_request`.
    InvalidRequest,
}

} // verus!
