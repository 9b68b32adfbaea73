use portal::account::{check_bootstrap, setup_status};
use portal::admin::{page_bounds, sanitize_literal};
use portal::auth::logout_plan;
use portal::error::AppError;
use portal::model::{
    admin_type_from_name, audit_result_from_name, grant_status_from_name, system_status_from_name,
    tenant_status_from_name, user_status_from_name, AdminType, AuditResult, GrantStatus, SystemStatus, TenantStatus,
    UserStatus,
};
use portal::permissions::{compute_effective, AssignmentRow, GrantRow, SystemRow};
use portal::validity::{
    assignment_is_current, current_assignments, current_grants, grant_is_current, inputs_at, StoredAssignment,
    StoredGrant, StoredInputs,
};
use portal::web::route_candidates;

const SYS: u128 = 0x51;
const NOW: i64 = 1_700_000_000_000_000;

fn row(visible: bool, accessible: bool, role: &str) -> AssignmentRow {
    AssignmentRow {
        system_id: SYS,
        visible,
        accessible,
        system_roles: Some(vec![role.to_string()]),
        permissions: Some(vec![]),
        scopes: vec![],
    }
}

fn stored(role: &str, starts_at: Option<i64>, expires_at: Option<i64>) -> StoredAssignment {
    StoredAssignment { row: row(true, true, role), starts_at, expires_at }
}

fn grant(active: bool, expires_at: Option<i64>) -> StoredGrant {
    StoredGrant {
        row: GrantRow { system_id: SYS, admin_type: AdminType::Module, scopes: vec![] },
        status: if active { GrantStatus::Active } else { GrantStatus::Inactive },
        expires_at,
    }
}

fn stored_inputs(users: Vec<StoredAssignment>, grants: Vec<StoredGrant>) -> StoredInputs {
    StoredInputs {
        membership_active: true,
        systems: vec![SystemRow {
            id: SYS,
            code: "crm".to_string(),
            name: "CRM".to_string(),
            description: None,
            category: None,
            icon_url: None,
            entry_url: "https://crm.example".to_string(),
            status: SystemStatus::Active,
        }],
        tenant_systems: vec![(SYS, true)],
        user_assignments: users,
        role_assignments: vec![],
        tenant_assignments: vec![],
        sub_admin_grants: grants,
    }
}

#[test]
fn assignment_windows_are_half_open() {
    assert!(assignment_is_current(None, None, NOW));
    assert!(assignment_is_current(Some(NOW), None, NOW));
    assert!(!assignment_is_current(Some(NOW + 1), None, NOW));
    assert!(assignment_is_current(None, Some(NOW + 1), NOW));
    assert!(!assignment_is_current(None, Some(NOW), NOW));
}

#[test]
fn grants_hold_while_active_and_unexpired() {
    assert!(grant_is_current(GrantStatus::Active, None, NOW));
    assert!(!grant_is_current(GrantStatus::Inactive, None, NOW));
    assert!(!grant_is_current(GrantStatus::Expired, None, NOW));
    assert!(!grant_is_current(GrantStatus::Active, Some(NOW - 1), NOW));
    assert!(grant_is_current(GrantStatus::Active, Some(NOW + 1), NOW));
}

#[test]
fn only_current_assignments_are_kept_in_order() {
    let rows = vec![
        stored("a", None, None),
        stored("expired", None, Some(NOW - 10)),
        stored("b", Some(NOW - 10), Some(NOW + 10)),
        stored("future", Some(NOW + 10), None),
    ];
    let kept = current_assignments(&rows, NOW);
    let roles: Vec<String> = kept.iter().map(|r| r.system_roles.clone().unwrap()[0].clone()).collect();
    assert_eq!(roles, vec!["a".to_string(), "b".to_string()]);
}

#[test]
fn revoked_and_expired_grants_are_dropped() {
    let rows = vec![grant(false, None), grant(true, Some(NOW)), grant(true, None)];
    assert_eq!(current_grants(&rows, NOW).len(), 1);
}

#[test]
fn an_expired_assignment_changes_no_context() {
    let with = inputs_at(
        stored_inputs(vec![stored("viewer", None, None), stored("owner", None, Some(NOW - 1))], vec![grant(false, None)]),
        NOW,
    );
    let without = inputs_at(stored_inputs(vec![stored("viewer", None, None)], vec![]), NOW);
    let a = compute_effective(&with).contexts;
    let b = compute_effective(&without).contexts;
    assert_eq!(a.len(), 1);
    assert_eq!(a[0].system_roles, b[0].system_roles);
    assert_eq!(a[0].system_roles, vec!["viewer".to_string()]);
    assert_eq!(a[0].is_sub_admin, b[0].is_sub_admin);
    assert!(!a[0].is_sub_admin);
    assert_eq!(a[0].accessible, b[0].accessible);
}

#[test]
fn sanitized_literals_undo_and_keep_quote_runs_even() {
    for v in ["", "plain", "o'brien", "''", "a'''b'", "'"] {
        let s = sanitize_literal(v);
        assert_eq!(s.replace("''", "'"), v);
        let mut run = 0;
        for c in s.chars().chain(std::iter::once('x')) {
            if c == '\'' {
                run += 1;
            } else {
                assert_eq!(run % 2, 0);
                run = 0;
            }
        }
    }
}

#[test]
fn climbing_paths_name_what_the_root_names() {
    let root = route_candidates("/");
    assert_eq!(root, vec!["index.html".to_string()]);
    assert_eq!(route_candidates("/../etc/passwd"), root);
    assert_eq!(route_candidates("/%2e%2e/secret"), root);
    assert_eq!(route_candidates("/docs/../x.js"), root);
    assert_ne!(route_candidates("/app.js"), root);
}

#[test]
fn logout_revokes_clears_and_audits() {
    let plan = logout_plan("portal_session");
    assert!(plan.revoke_session);
    assert_eq!(plan.set_cookie, "portal_session=; Path=/; HttpOnly; SameSite=Lax; Max-Age=0");
    assert_eq!(plan.audit_action, "logout.success");
}

#[test]
fn setup_happens_once() {
    let before = setup_status(false);
    assert!(!before.initialized && before.needs_setup);
    let after = setup_status(true);
    assert!(after.initialized && !after.needs_setup);
    match check_bootstrap(true, "root", "Root", "password123") {
        Err(AppError::Conflict(m)) => assert_eq!(m, "PORTAL_ALREADY_INITIALIZED"),
        other => panic!("unexpected {:?}", other),
    }
    match check_bootstrap(false, " root ", "Root", "password123") {
        Ok((u, d, p)) => {
            assert_eq!(u, "root");
            assert_eq!(d, "Root");
            assert_eq!(p, "password123");
        }
        other => panic!("unexpected {:?}", other),
    }
    match check_bootstrap(false, "root", "Root", "short") {
        Err(AppError::ValidationFailed(m)) => assert_eq!(m, "USERNAME_DISPLAY_NAME_AND_PASSWORD_REQUIRED"),
        other => panic!("unexpected {:?}", other),
    }
}

#[test]
fn pages_beyond_the_offset_range_are_refused() {
    assert!(matches!(page_bounds(3, 20), Ok((20, 40))));
    assert!(matches!(page_bounds(0, 500), Ok((100, 0))));
    match page_bounds(i64::MAX, 100) {
        Err(AppError::ValidationFailed(m)) => assert_eq!(m, "PAGE_OUT_OF_RANGE"),
        other => panic!("unexpected {:?}", other),
    }
}

#[test]
fn stored_names_read_back_with_defaults() {
    assert_eq!(user_status_from_name("pending"), UserStatus::Pending);
    assert_eq!(user_status_from_name("weird"), UserStatus::Active);
    assert_eq!(tenant_status_from_name("archived"), TenantStatus::Archived);
    assert_eq!(tenant_status_from_name(""), TenantStatus::Active);
    assert_eq!(system_status_from_name("maintenance"), SystemStatus::Maintenance);
    assert_eq!(system_status_from_name("gone"), SystemStatus::Active);
    assert_eq!(admin_type_from_name("organization"), AdminType::Organization);
    assert_eq!(admin_type_from_name("other"), AdminType::System);
    assert_eq!(audit_result_from_name("failure"), AuditResult::Failure);
    assert_eq!(audit_result_from_name("ok"), AuditResult::Success);
    assert_eq!(grant_status_from_name("active"), GrantStatus::Active);
    assert_eq!(grant_status_from_name("expired"), GrantStatus::Expired);
    assert_eq!(grant_status_from_name("revoked"), GrantStatus::Inactive);
}
