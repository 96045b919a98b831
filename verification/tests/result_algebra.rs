use authz::permission::{AuthorizationResult, Permissionship};
use authz::AuthorizationError;

#[test]
fn outcome_has_permissions_only_on_has_permission() {
    assert!(Permissionship::HasPermission.has_permissions());
    assert!(!Permissionship::NoPermission.has_permissions());
    assert!(!Permissionship::ConditionalPermission.has_permissions());
}

#[test]
fn outcome_result_only_on_has_permission() {
    assert!(Permissionship::HasPermission.result().is_ok());
    assert!(matches!(
        Permissionship::NoPermission.result(),
        Err(AuthorizationError::Unauthorized)
    ));
    assert!(matches!(
        Permissionship::ConditionalPermission.result(),
        Err(AuthorizationError::Unauthorized)
    ));
}

#[test]
fn granted_outcome_reads_true_and_ok() {
    let a = AuthorizationResult::from(Ok(Permissionship::HasPermission));
    assert!(a.has_permissions());
    assert!(a.result().is_ok());
}

#[test]
fn denied_outcome_reads_false_and_unauthorized() {
    let a = AuthorizationResult::from(Ok(Permissionship::NoPermission));
    assert!(!a.has_permissions());
    assert!(matches!(a.result(), Err(AuthorizationError::Unauthorized)));
}

#[test]
fn conditional_outcome_collapses_to_denied() {
    let a = AuthorizationResult::from(Ok(Permissionship::ConditionalPermission));
    assert!(!a.has_permissions());
    assert!(matches!(a.result(), Err(AuthorizationError::Unauthorized)));
}

#[test]
fn wrapped_error_reads_false_and_unauthorized() {
    let a = AuthorizationResult::from(Err(AuthorizationError::ConnectionError {
        msg: "network unreachable".to_string(),
    }));
    assert!(!a.has_permissions());
    assert!(matches!(a.result(), Err(AuthorizationError::Unauthorized)));
}

#[test]
fn result_agrees_with_has_permissions_on_every_state() {
    let states = [
        Ok(Permissionship::HasPermission),
        Ok(Permissionship::NoPermission),
        Ok(Permissionship::ConditionalPermission),
        Err(AuthorizationError::Unauthorized),
    ];
    for s in states {
        let a = AuthorizationResult::from(s);
        assert_eq!(a.result().is_ok(), a.has_permissions());
    }
}

#[test]
fn unauthorized_message_is_stable() {
    assert_eq!(
        AuthorizationError::Unauthorized.message().as_str(),
        "You are not allowed to access this resource"
    );
}

#[test]
fn connection_error_message_carries_the_diagnostic() {
    let e = AuthorizationError::ConnectionError {
        msg: "dns failure".to_string(),
    };
    assert_eq!(
        e.message().as_str(),
        "Could not connect to spice db: dns failure"
    );
}
