//! The decisions of the permission-check client.
//!
//! The client owns one transport connection and issues "check permission"
//! calls against it. Everything it decides is here, verified: how the
//! configured endpoint is normalized and validated, which interceptor a
//! configuration yields, how a request is assembled from typed or raw
//! inputs, and how the outcome of the remote call is lifted into the
//! library's error taxonomy. The surrounding application performs the
//! connect and the call itself and hands their outcomes back.

use crate::config::SpiceDbConfig;
use crate::grpc_auth::AuthInterceptor;
use crate::object::{ObjectReference, SpiceDbObject, SubjectReference};
use crate::permission::{Permissions, Permissionship};
use crate::text::{spec_starts_with, str_starts_with};
use crate::AuthorizationError;
use vstd::prelude::*;

verus! {

/// The wire form of one "check permission" request.
#[derive(Debug, Clone)]
pub struct CheckPermissionRequest {
    pub resource: ObjectReference,
    pub permission: String,
    pub subject: SubjectReference,
}

/// The transport endpoint type of the gRPC client, opaque to this library.
#[verifier::external_type_specification]
#[verifier::external_body]
pub struct ExEndpoint(tonic::transport::Endpoint);

/// The error a rejected remote call carries, opaque to this library.
#[verifier::external_type_specification]
#[verifier::external_body]
pub struct ExStatus(tonic::Status);

/// The error an endpoint URL is rejected with, opaque to this library.
#[verifier::external_type_specification]
#[verifier::external_body]
pub struct ExInvalidUri(tonic::codegen::http::uri::InvalidUri);

/// Whether the URL parses as a valid transport URI; what
/// `tonic::transport::Channel::from_shared` accepts.
pub uninterp spec fn uri_ok(url: Seq<char>) -> bool;

/// Relies on `tonic::transport::Channel::from_shared`: it parses the URL
/// into an endpoint without touching the network, and whether it succeeds
/// depends on the URL's characters alone.
#[verifier::external_body]
fn endpoint_from_url(url: String) -> (r: Result<
    tonic::transport::Endpoint,
    tonic::codegen::http::uri::InvalidUri,
>)
    ensures
        r is Ok <==> uri_ok(url@),
{
    tonic::transport::Channel::from_shared(url)
}

/// Relies on the `Display` impl of http's `InvalidUri` for the diagnostic
/// text carried by a connection error.
#[verifier::external_body]
fn invalid_uri_message(e: &tonic::codegen::http::uri::InvalidUri) -> String {
    e.to_string()
}

/// The endpoint carries an explicit scheme.
pub open spec fn has_scheme(s: Seq<char>) -> bool {
    spec_starts_with(s, "http://"@) || spec_starts_with(s, "https://"@)
}

/// The URL the client connects to: the configured endpoint, prefixed with
/// the insecure default scheme when it names none.
pub open spec fn normalized_endpoint(s: Seq<char>) -> Seq<char> {
    if has_scheme(s) {
        s
    } else {
        "http://"@ + s
    }
}

/// Normalizes the configured endpoint: an endpoint that already starts
/// with `"http://"` or `"https://"` passes through unchanged, any other is
/// prefixed with the insecure `"http://"`.
pub fn normalize_endpoint(endpoint: &str) -> (r: String)
    ensures
        r@ == normalized_endpoint(endpoint@),
{
    if str_starts_with(endpoint, "http://") || str_starts_with(endpoint, "https://") {
        String::from_str(endpoint)
    } else {
        String::from_str("http://").concat(endpoint)
    }
}

/// A normalized endpoint always carries a scheme: normalization passes an
/// explicit scheme through and prefixes the insecure one everywhere else.
pub proof fn lemma_normalized_has_scheme(s: Seq<char>)
    ensures
        has_scheme(normalized_endpoint(s)),
{
    if !has_scheme(s) {
        assert(("http://"@ + s).subrange(0, "http://"@.len() as int) =~= "http://"@);
    }
}

/// Validates the configured endpoint without touching the network: the
/// normalized URL either parses into a transport endpoint or is rejected
/// with a `ConnectionError` carrying the parser's diagnostic.
pub fn validate_endpoint(endpoint: &str) -> (r: Result<
    tonic::transport::Endpoint,
    AuthorizationError,
>)
    ensures
        r is Ok <==> uri_ok(normalized_endpoint(endpoint@)),
        r is Err ==> r->Err_0 is ConnectionError,
{
    let url = normalize_endpoint(endpoint);
    match endpoint_from_url(url) {
        Ok(e) => Ok(e),
        Err(e) => Err(AuthorizationError::ConnectionError { msg: invalid_uri_message(&e) }),
    }
}

/// The interceptor a configuration yields: it holds the configured token,
/// or the empty token when none is configured.
pub fn interceptor_for(config: &SpiceDbConfig) -> (r: AuthInterceptor)
    ensures
        config.token matches Some(t) ==> r.spec_token() == t@,
        config.token is None ==> r.spec_token().len() == 0,
{
    let token = match &config.token {
        Some(t) => t.clone(),
        None => String::new(),
    };
    AuthInterceptor::new(token)
}

/// Assembles the raw request: the resource and permission name go in as
/// given, the subject is wrapped as a subject descriptor with no relation
/// narrowing.
pub fn check_request_raw(
    resource: ObjectReference,
    permission: String,
    subject: ObjectReference,
) -> (r: CheckPermissionRequest)
    ensures
        r.resource == resource,
        r.permission == permission,
        r.subject.object matches Some(o) && o == subject,
        r.subject.optional_relation@.len() == 0,
{
    CheckPermissionRequest {
        resource,
        permission,
        subject: SubjectReference { object: Some(subject), optional_relation: String::new() },
    }
}

/// Assembles the typed request: resource and subject are encoded through
/// the object model, the permission through the catalog. These conversions
/// are total; building a request cannot fail.
pub fn check_request(
    resource: &SpiceDbObject,
    permission: &Permissions,
    subject: &SpiceDbObject,
) -> (r: CheckPermissionRequest)
    ensures
        r.resource.object_type@ == resource.spec_object_name(),
        r.resource.object_id@ == resource.spec_id(),
        r.permission@ == permission.spec_wire_name(),
        r.subject.object matches Some(o) && o.object_type@ == subject.spec_object_name()
            && o.object_id@ == subject.spec_id(),
        r.subject.optional_relation@.len() == 0,
{
    CheckPermissionRequest {
        resource: resource.to_reference(),
        permission: permission.wire_name(),
        subject: subject.to_subject_reference(),
    }
}

/// Lifts the outcome of the remote call into the library's taxonomy: a
/// returned tri-state outcome passes through verbatim, and any rejected
/// call is collapsed to the opaque `Unauthorized` error. The collapse is a
/// deliberate fail-closed policy: a transient transport fault reads, to
/// the caller, like an explicit denial.
pub fn lift_check_outcome(r: Result<Permissionship, tonic::Status>) -> (out: Result<
    Permissionship,
    AuthorizationError,
>)
    ensures
        r matches Ok(p) ==> (out matches Ok(q) && q == p),
        r is Err ==> (out matches Err(e) && e is Unauthorized),
{
    match r {
        Ok(p) => Ok(p),
        Err(_) => Err(AuthorizationError::Unauthorized),
    }
}

} // verus!
