use authz::object::SpiceDbObject;
use authz::permission::Permissions;

#[test]
fn server_object_name_and_id_round_trip() {
    let o = SpiceDbObject::Server("server-abc-123".to_string());
    assert_eq!(o.object_name().as_str(), "server");
    assert_eq!(o.id().as_str(), "server-abc-123");
}

#[test]
fn channel_object_name_and_id_round_trip() {
    let o = SpiceDbObject::Channel("channel-xyz-789".to_string());
    assert_eq!(o.object_name().as_str(), "channel");
    assert_eq!(o.id().as_str(), "channel-xyz-789");
}

#[test]
fn user_object_name_and_id_round_trip() {
    let o = SpiceDbObject::User("user-def-456".to_string());
    assert_eq!(o.object_name().as_str(), "user");
    assert_eq!(o.id().as_str(), "user-def-456");
}

#[test]
fn permission_override_object_name_and_id_round_trip() {
    let o = SpiceDbObject::PermissionOverride("override-001".to_string());
    assert_eq!(o.object_name().as_str(), "permission_override");
    assert_eq!(o.id().as_str(), "override-001");
}

#[test]
fn reference_pairs_namespace_with_identifier() {
    let r = SpiceDbObject::Channel("general-chat".to_string()).to_reference();
    assert_eq!(r.object_type.as_str(), "channel");
    assert_eq!(r.object_id.as_str(), "general-chat");
}

#[test]
fn subject_reference_wraps_the_object_without_relation() {
    let s = SpiceDbObject::User("u1".to_string()).to_subject_reference();
    let o = s.object.expect("subject must carry its object");
    assert_eq!(o.object_type.as_str(), "user");
    assert_eq!(o.object_id.as_str(), "u1");
    assert_eq!(s.optional_relation.as_str(), "");
}

#[test]
fn empty_identifier_round_trips_unchanged() {
    let o = SpiceDbObject::Server(String::new());
    assert_eq!(o.id().as_str(), "");
    assert_eq!(o.object_name().as_str(), "server");
}

#[test]
fn all_twelve_permission_wire_names_are_stable() {
    let expected: [(Permissions, &str); 12] = [
        (Permissions::Administrator, "admin"),
        (Permissions::ManageServer, "manage"),
        (Permissions::ManageRoles, "manage_role"),
        (Permissions::CreateInvitation, "create_invitation"),
        (Permissions::ManageChannels, "manage_channels"),
        (Permissions::ManageWebhooks, "manage_webhooks"),
        (Permissions::ViewChannels, "view_channel"),
        (Permissions::SendMessages, "send_message"),
        (Permissions::ManageNicknames, "manage_nicknames"),
        (Permissions::ChangeNickname, "change_nickname"),
        (Permissions::ManageMessages, "manage_message"),
        (Permissions::AttachFiles, "attach_files"),
    ];
    for (p, name) in expected {
        assert_eq!(p.wire_name().as_str(), name);
    }
}
