//! The permission catalog and the result algebra of a check.
//!
//! `Permissions` is the closed set of capability names the typed check path
//! accepts, each with its stable wire encoding. `Permissionship` is the
//! tri-state outcome a check returns, and `AuthorizationResult` wraps that
//! outcome together with the error channel into the two views callers
//! consume: a boolean and a fallible result. Both views fail closed: only
//! an outcome of exactly `HasPermission` counts as granted.

use crate::AuthorizationError;
use vstd::prelude::*;

verus! {

/// The closed catalog of named capabilities.
///
/// Each variant has exactly one stable wire name; renaming one is a
/// breaking change against the remote schema. A permission the backend
/// knows but this catalog does not yet list can still be checked through
/// the raw path, which takes the wire name as a plain string.
#[derive(Debug, Clone, Copy, PartialEq, Eq, Structural)]
pub enum Permissions {
    /// Can do any action on any subject (channel, webhooks, ...) in a server.
    Administrator,
    /// Can update a server (all CRUD except delete).
    ManageServer,
    /// Can do all CRUD operations on all roles.
    ManageRoles,
    /// Can create server invites.
    CreateInvitation,
    /// Can do all CRUD operations on every channel.
    ManageChannels,
    /// Can do all CRUD operations on every webhook.
    ManageWebhooks,
    /// Can see the channel and its contents (messages).
    ViewChannels,
    /// Can send a message on the channel.
    SendMessages,
    /// Can update other users' nicknames.
    ManageNicknames,
    /// Can update your own nickname.
    ChangeNickname,
    /// Can delete other users' messages.
    ManageMessages,
    /// Can upload images and files.
    AttachFiles,
}

impl Permissions {
    /// The wire name of the capability, as the backend schema spells it.
    pub open spec fn spec_wire_name(&self) -> Seq<char> {
        match self {
            Permissions::Administrator => "admin"@,
            Permissions::ManageServer => "manage"@,
            Permissions::ManageRoles => "manage_role"@,
            Permissions::CreateInvitation => "create_invitation"@,
            Permissions::ManageChannels => "manage_channels"@,
            Permissions::ManageWebhooks => "manage_webhooks"@,
            Permissions::ViewChannels => "view_channel"@,
            Permissions::SendMessages => "send_message"@,
            Permissions::ManageNicknames => "manage_nicknames"@,
            Permissions::ChangeNickname => "change_nickname"@,
            Permissions::ManageMessages => "manage_message"@,
            Permissions::AttachFiles => "attach_files"@,
        }
    }

    /// Returns the permission's exact wire name.
    pub fn wire_name(&self) -> (r: String)
        ensures
            r@ == self.spec_wire_name(),
    {
        match self {
            Permissions::Administrator => String::from_str("admin"),
            Permissions::ManageServer => String::from_str("manage"),
            Permissions::ManageRoles => String::from_str("manage_role"),
            Permissions::CreateInvitation => String::from_str("create_invitation"),
            Permissions::ManageChannels => String::from_str("manage_channels"),
            Permissions::ManageWebhooks => String::from_str("manage_webhooks"),
            Permissions::ViewChannels => String::from_str("view_channel"),
            Permissions::SendMessages => String::from_str("send_message"),
            Permissions::ManageNicknames => String::from_str("manage_nicknames"),
            Permissions::ChangeNickname => String::from_str("change_nickname"),
            Permissions::ManageMessages => String::from_str("manage_message"),
            Permissions::AttachFiles => String::from_str("attach_files"),
        }
    }
}

/// The tri-state outcome of a permission check.
///
/// `ConditionalPermission` means access depends on caller-supplied context
/// that was not evaluated; every derived view here collapses it to "not
/// granted", so callers needing conditional evaluation must inspect this
/// outcome themselves through the raw path.
#[derive(Debug, Clone, Copy, PartialEq, Eq, Structural)]
pub enum Permissionship {
    HasPermission,
    NoPermission,
    ConditionalPermission,
}

impl Permissionship {
    /// Collapses the outcome into a fallible view: success exactly on
    /// `HasPermission`, the opaque `Unauthorized` error on everything else.
    pub fn result(&self) -> (r: Result<(), AuthorizationError>)
        ensures
            r is Ok <==> self is HasPermission,
            r is Err ==> r->Err_0 is Unauthorized,
    {
        match self {
            Permissionship::HasPermission => Ok(()),
            _ => Err(AuthorizationError::Unauthorized),
        }
    }

    /// The boolean view: true exactly on `HasPermission`.
    pub fn has_permissions(&self) -> (r: bool)
        ensures
            r <==> self is HasPermission,
    {
        match self {
            Permissionship::HasPermission => true,
            _ => false,
        }
    }
}

/// The result of one permission check: either the remote tri-state outcome
/// or the error the check ended in. Built once per call, never mutated.
pub struct AuthorizationResult(pub Result<Permissionship, AuthorizationError>);

impl AuthorizationResult {
    /// Whether the check granted access: the wrapped outcome exists and is
    /// exactly `HasPermission`. Denial, a conditional outcome and every
    /// error all read as false: the view fails closed and exposes no
    /// error detail.
    pub open spec fn spec_granted(&self) -> bool {
        self.0 matches Ok(p) && p is HasPermission
    }

    /// The boolean view of the check: true iff access was granted.
    pub fn has_permissions(&self) -> (r: bool)
        ensures
            r <==> self.spec_granted(),
    {
        match &self.0 {
            Ok(permission) => permission.has_permissions(),
            Err(_) => false,
        }
    }

    /// The fallible view of the check: success iff access was granted.
    /// Denial, a conditional outcome and any underlying error are all
    /// normalized to the single `Unauthorized` error, deliberately
    /// discarding whether the failure was a policy denial or an
    /// infrastructure fault.
    pub fn result(&self) -> (r: Result<(), AuthorizationError>)
        ensures
            r is Ok <==> self.spec_granted(),
            r is Err ==> r->Err_0 is Unauthorized,
    {
        let permissions = match &self.0 {
            Ok(permission) => permission,
            Err(_) => {
                return Err(AuthorizationError::Unauthorized);
            },
        };
        if permissions.has_permissions() {
            Ok(())
        } else {
            Err(AuthorizationError::Unauthorized)
        }
    }
}

impl From<Result<Permissionship, AuthorizationError>> for AuthorizationResult {
    /// Wraps the outcome of one raw check.
    fn from(value: Result<Permissionship, AuthorizationError>) -> (r: Self) {
        AuthorizationResult(value)
    }
}

impl vstd::std_specs::convert::FromSpecImpl<Result<Permissionship, AuthorizationError>> for AuthorizationResult {
    open spec fn obeys_from_spec() -> bool {
        true
    }

    open spec fn from_spec(value: Result<Permissionship, AuthorizationError>) -> Self {
        AuthorizationResult(value)
    }
}

/// The two views of a check agree: whatever outcome or error the result
/// wraps, `result()` succeeds exactly when `has_permissions()` reads true.
pub proof fn lemma_result_agrees_with_has_permissions(
    a: AuthorizationResult,
    r: Result<(), AuthorizationError>,
    b: bool,
)
    requires
        call_ensures(AuthorizationResult::result, (&a,), r),
        call_ensures(AuthorizationResult::has_permissions, (&a,), b),
    ensures
        r is Ok <==> b,
{
}

} // verus!
