use portal::account::{
    accept_avatar, avatar_file_name, avatar_payload, avatar_source, avatar_url, builtin_roles, check_default_tenant,
    check_display_name, check_grant_eligibility, check_role_code, check_role_deletable, decode_base64_image,
    default_tenant_name, fetched_avatar, first_tenant_id, initial_password, optional_trimmed, parse_grant_target,
    require_filled, validate_bootstrap, AvatarSource,
};
use portal::error::AppError;
use portal::middleware::{audit_action, audit_result, generate_request_id, request_id_for, should_audit, RequestId};
use portal::model::{AuditResult, AuthMode, GrantStatus, RoleType, SubjectType, TenantStatus, UserStatus};
use portal::response::{envelope_action, ApiErrorBody, ApiResponse, Envelope, EnvelopeLayer};

const ID1: &str = "00000000-0000-0000-0000-000000000001";

fn s(x: &str) -> String {
    x.to_string()
}

fn validation<T: std::fmt::Debug>(r: Result<T, AppError>) -> String {
    match r {
        Err(AppError::ValidationFailed(m)) => m,
        other => panic!("expected a validation failure, got {:?}", other),
    }
}

#[test]
fn required_fields_are_trimmed() {
    assert_eq!(require_filled(&vec![s(" a "), s("b")], "X").unwrap(), vec![s("a"), s("b")]);
    assert_eq!(validation(require_filled(&vec![s("a"), s(" \t ")], "CODE_NAME_ENTRY_URL_REQUIRED")), "CODE_NAME_ENTRY_URL_REQUIRED");
    assert_eq!(validate_bootstrap(" root ", " Root ", " 12345678 ").unwrap(), (s("root"), s("Root"), s("12345678")));
    assert_eq!(validation(validate_bootstrap("root", "Root", " 1234567 ")), "USERNAME_DISPLAY_NAME_AND_PASSWORD_REQUIRED");
    assert!(validate_bootstrap("root", "Root", "密码密码密").is_ok());
    assert_eq!(validation(validate_bootstrap("", "Root", "12345678")), "USERNAME_DISPLAY_NAME_AND_PASSWORD_REQUIRED");
    assert_eq!(optional_trimmed(&Some(s("  a@b.c "))), Some(s("a@b.c")));
    assert_eq!(optional_trimmed(&Some(s("   "))), None);
    assert_eq!(default_tenant_name(&Some(s(" Acme "))), "Acme");
    assert_eq!(default_tenant_name(&Some(s(""))), "默认租户");
    assert_eq!(default_tenant_name(&None), "默认租户");
}

#[test]
fn roles_and_profiles() {
    let roles = builtin_roles();
    assert_eq!(roles.len(), 5);
    assert_eq!(roles[0].code, "super-admin");
    assert_eq!(roles[0].role_type, RoleType::SuperAdmin);
    assert_eq!(roles[4].name, "系统集成员");
    assert!(check_role_code(None).is_ok());
    assert!(matches!(check_role_code(Some(true)), Err(AppError::Conflict(m)) if m == "BUILTIN_ROLE_EXISTS"));
    assert!(matches!(check_role_code(Some(false)), Err(AppError::Conflict(m)) if m == "CODE_EXISTS"));
    assert!(matches!(check_role_deletable(true, 0), Err(AppError::PermissionDenied)));
    assert!(matches!(check_role_deletable(false, 3), Err(AppError::Conflict(m)) if m == "ROLE_HAS_MEMBERS"));
    assert!(check_role_deletable(false, 0).is_ok());
    assert_eq!(validation(check_display_name(&Some(s("  ")))), "display_name cannot be empty");
    assert!(check_display_name(&None).is_ok());
    assert!(check_display_name(&Some(s("Bob"))).is_ok());
    assert_eq!(validation(check_default_tenant(Some(false))), "invalid default tenant");
    assert!(check_default_tenant(Some(true)).is_ok());
    assert!(check_default_tenant(None).is_ok());
    assert_eq!(initial_password(&None), "portal123");
    assert_eq!(initial_password(&Some(s("x"))), "x");
    assert_eq!(first_tenant_id(&vec![s(ID1), s("junk")]), Some(1));
    assert_eq!(first_tenant_id(&vec![s("junk"), s(ID1)]), None);
    assert_eq!(first_tenant_id(&vec![]), None);
}

#[test]
fn sub_administrator_grants() {
    assert_eq!(validation(parse_grant_target("bad", ID1, &None)), "USER_NOT_FOUND");
    assert_eq!(validation(parse_grant_target(ID1, "bad", &None)), "SYSTEM_NOT_FOUND");
    assert_eq!(parse_grant_target(ID1, ID1, &Some(s("junk"))).unwrap(), (1, 1, None));
    assert_eq!(parse_grant_target(ID1, ID1, &Some(s(ID1))).unwrap(), (1, 1, Some(1)));
    assert_eq!(validation(check_grant_eligibility(Some(UserStatus::Pending), true, None)), "USER_NOT_FOUND");
    assert_eq!(validation(check_grant_eligibility(None, true, None)), "USER_NOT_FOUND");
    assert_eq!(validation(check_grant_eligibility(Some(UserStatus::Active), false, None)), "SYSTEM_NOT_FOUND");
    assert_eq!(validation(check_grant_eligibility(Some(UserStatus::Active), true, Some(false))), "TENANT_MEMBER_NOT_FOUND");
    assert!(check_grant_eligibility(Some(UserStatus::Active), true, Some(true)).is_ok());
}

#[test]
fn avatars() {
    assert_eq!(avatar_source(&Some(s("x")), &None).unwrap(), AvatarSource::Base64);
    assert_eq!(avatar_source(&None, &Some(s("u"))).unwrap(), AvatarSource::Url);
    assert_eq!(validation(avatar_source(&None, &None)), "provide either base64 or url");
    assert_eq!(validation(avatar_source(&Some(s("x")), &Some(s("u")))), "provide either base64 or url");
    assert_eq!(avatar_payload("data:image/png;base64, aGVs\nbG8="), "aGVsbG8=");
    assert_eq!(avatar_payload(" aGVsbG8= "), "aGVsbG8=");
    assert_eq!(decode_base64_image("data:image/png;base64,aGVs bG8=").unwrap(), b"hello".to_vec());
    assert_eq!(validation(decode_base64_image("***")), "INVALID_BASE64");
    assert_eq!(decode_base64_image("").unwrap(), Vec::<u8>::new());
    assert_eq!(validation(accept_avatar(vec![])), "EMPTY_AVATAR");
    assert_eq!(accept_avatar(vec![1]).unwrap(), vec![1]);
    assert_eq!(validation(fetched_avatar(None)), "FETCH_AVATAR_FAILED");
    assert_eq!(fetched_avatar(Some(vec![7])).unwrap(), vec![7]);
    assert_eq!(avatar_file_name(1), format!("{}.png", ID1));
    assert_eq!(avatar_url(1, 1700000000123), format!("/avatars/{}.png?t=1700000000123", ID1));
    assert_eq!(avatar_url(1, -5), format!("/avatars/{}.png?t=-5", ID1));
}

#[test]
fn errors_are_reported_with_codes_and_statuses() {
    let cases: Vec<(AppError, &str, &str, u16)> = vec![
        (AppError::AuthRequired, "AUTH_REQUIRED", "AUTH_REQUIRED", 401),
        (AppError::PermissionDenied, "PERMISSION_DENIED", "PERMISSION_DENIED", 403),
        (AppError::SystemDisabled, "SYSTEM_DISABLED", "SYSTEM_DISABLED", 403),
        (AppError::TenantDisabled, "TENANT_DISABLED", "TENANT_DISABLED", 403),
        (AppError::InvalidSubsystemTicket, "INVALID_SUBSYSTEM_TICKET", "INVALID_SUBSYSTEM_TICKET", 400),
        (AppError::validation("bad input"), "VALIDATION_FAILED", "bad input", 400),
        (AppError::conflict("taken"), "CONFLICT", "taken", 409),
        (AppError::NotFound, "NOT_FOUND", "NOT_FOUND", 404),
        (AppError::Internal(s("db down")), "INTERNAL_ERROR", "INTERNAL_ERROR", 500),
    ];
    for (e, code, message, status) in cases {
        assert_eq!(e.code(), code);
        assert_eq!(e.message(), message);
        assert_eq!(e.status_code(), status);
        let body = ApiErrorBody::from_error(&e);
        assert_eq!(body.code, code);
        assert_eq!(body.message, message);
    }
}

#[test]
fn envelopes_and_audit_classification() {
    let r = ApiResponse::ok(5, s("req_1"));
    assert_eq!(r.data, Some(5));
    assert_eq!(r.request_id, "req_1");
    assert!(r.error.is_none());
    let svc = EnvelopeLayer.layer(7u8);
    assert_eq!(svc.inner, 7u8);
    assert_eq!(envelope_action(200, "application/json; charset=utf-8", false, true), Envelope::Data);
    assert_eq!(envelope_action(404, "application/json", false, true), Envelope::Error);
    assert_eq!(envelope_action(200, "text/html", false, true), Envelope::PassThrough);
    assert_eq!(envelope_action(200, "application/json", true, true), Envelope::PassThrough);
    assert_eq!(envelope_action(500, "application/json", false, false), Envelope::PassThrough);
    assert!(should_audit("POST", "/api/admin/users"));
    assert!(should_audit("DELETE", "/api/admin/roles/1"));
    assert!(!should_audit("GET", "/api/admin/users"));
    assert!(!should_audit("POST", "/api/health/deep"));
    assert!(!should_audit("post", "/api/x"));
    assert_eq!(audit_result(204), "success");
    assert_eq!(audit_result(403), "failure");
    assert_eq!(audit_result(599), "failure");
    assert_eq!(audit_result(600), "success");
    assert_eq!(audit_action("PUT", "/api/profile"), "PUT /api/profile");
    let id = generate_request_id();
    assert!(id.starts_with("req_"));
    assert_eq!(id.len(), 20);
    assert!(id[4..].chars().all(|c| c.is_ascii_hexdigit() && !c.is_ascii_uppercase()));
    assert_eq!(request_id_for(Some(s("abc"))), "abc");
    assert!(request_id_for(None).starts_with("req_"));
    let rid = RequestId(id.clone());
    assert_eq!(rid.0, id);
}

#[test]
fn stored_names_of_kinds() {
    assert_eq!(UserStatus::Archived.as_str(), "archived");
    assert_eq!(RoleType::SubsystemAdmin.as_str(), "subsystem_admin");
    assert_eq!(TenantStatus::Disabled.as_str(), "disabled");
    assert_eq!(SubjectType::Tenant.as_str(), "tenant");
    assert_eq!(GrantStatus::Expired.as_str(), "expired");
    assert_eq!(AuthMode::AuthorizationCode.as_str(), "authorization_code");
    assert_eq!(AuditResult::Failure.as_str(), "failure");
}

#[test]
fn the_last_super_administrator_is_kept() {
    assert!(portal::account::check_super_admin_kept(2, 1).is_ok());
    assert!(portal::account::check_super_admin_kept(0, 0).is_ok());
    assert!(portal::account::check_super_admin_kept(1, 1).is_ok());
    match portal::account::check_super_admin_kept(1, 0) {
        Err(AppError::Conflict(m)) => assert_eq!(m, "LAST_SUPER_ADMIN"),
        _ => panic!("expected a conflict"),
    }
}
