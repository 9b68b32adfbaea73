use portal::admin::{
    audit_csv, ensure_unused, export_file_name, AuditExportRow, batch_action, batch_audit_action, change_key, check_integration, check_systems_found, csv_line, default_admin_type,
    default_auth_mode, default_grant_status, default_matrix_view, default_page, default_page_size, default_reason,
    default_return_to, default_role_type, default_subject_type, default_system_status, default_take,
    default_tenant_status, default_token_ttl, default_user_status, diff_action, effective_tenant, effective_user,
    escape_csv, find_last, matrix_grid, matrix_key, matrix_tenant, matrix_view, pagination_bounds, parse_ids,
    plan_batch, resolve_assignment, sanitize_like, sanitize_literal, system_view_grid, AssignmentLookup,
    BatchAction,
};
use portal::error::AppError;
use portal::model::{AdminType, AuditResult, AuthMode, GrantStatus, RoleType, SubjectType, SystemStatus, TenantStatus, UserStatus};

const U1: &str = "00000000-0000-0000-0000-000000000001";
const U2: &str = "00000000-0000-0000-0000-000000000002";

fn strings(xs: &[&str]) -> Vec<String> {
    xs.iter().map(|s| s.to_string()).collect()
}

fn validation(r: Result<impl std::fmt::Debug, AppError>) -> String {
    match r {
        Err(AppError::ValidationFailed(m)) => m,
        other => panic!("expected a validation failure, got {:?}", other),
    }
}

#[test]
fn literals_and_like_patterns_are_escaped() {
    assert_eq!(sanitize_literal("O'Brien"), "O''Brien");
    assert_eq!(sanitize_literal("plain"), "plain");
    assert_eq!(sanitize_like("50%_a\\b'"), "50\\%\\_a\\\\b''");
}

#[test]
fn csv_fields_are_quoted_when_needed() {
    assert_eq!(escape_csv("plain"), "plain");
    assert_eq!(escape_csv("a,b"), "\"a,b\"");
    assert_eq!(escape_csv("say \"hi\""), "\"say \"\"hi\"\"\"");
    assert_eq!(escape_csv("two\nlines"), "\"two\nlines\"");
    assert_eq!(csv_line(&strings(&["a", "b,c", ""])), "a,\"b,c\",\n");
    assert_eq!(csv_line(&strings(&[])), "\n");
}

#[test]
fn pages_are_clamped() {
    assert_eq!(pagination_bounds(1, 20), (20, 0));
    assert_eq!(pagination_bounds(3, 20), (20, 40));
    assert_eq!(pagination_bounds(0, 0), (1, 0));
    assert_eq!(pagination_bounds(-5, 500), (100, 0));
    assert_eq!(pagination_bounds(2, 101), (100, 100));
}

#[test]
fn request_defaults() {
    assert_eq!(default_page(), 1);
    assert_eq!(default_page_size(), 20);
    assert_eq!(default_take(), 50);
    assert_eq!(default_tenant_status(), TenantStatus::Active);
    assert_eq!(default_user_status(), UserStatus::Active);
    assert_eq!(default_role_type(), RoleType::Custom);
    assert_eq!(default_subject_type(), SubjectType::User);
    assert_eq!(default_system_status(), SystemStatus::Active);
    assert_eq!(default_auth_mode(), AuthMode::Jwt);
    assert_eq!(default_token_ttl(), 300);
    assert_eq!(default_grant_status(), GrantStatus::Active);
    assert_eq!(default_admin_type(), AdminType::System);
    assert_eq!(default_matrix_view(), "user");
    assert_eq!(default_reason(), "no_permission");
    assert_eq!(default_return_to(), "/");
}

#[test]
fn batch_requests_are_checked_in_order() {
    assert_eq!(batch_action("assignRole"), Some(BatchAction::AssignRole));
    assert_eq!(batch_action("assign_role"), None);
    assert_eq!(validation(plan_batch("explode", &strings(&[U1]), &None, &None)), "INVALID_ACTION");
    assert_eq!(validation(plan_batch("enable", &strings(&[]), &None, &None)), "USER_IDS_REQUIRED");
    assert_eq!(validation(plan_batch("enable", &strings(&["nope"]), &None, &None)), "NO_MATCHING_USERS");
    assert_eq!(validation(plan_batch("assignRole", &strings(&[U1]), &Some("x".to_string()), &None)), "ROLE_ID_REQUIRED");
    assert_eq!(validation(plan_batch("addToTenant", &strings(&[U1]), &None, &None)), "TENANT_ID_REQUIRED");
    let p = plan_batch("removeRole", &strings(&[U1, "bad", U2]), &Some(U2.to_string()), &None).unwrap();
    assert_eq!(p.action, BatchAction::RemoveRole);
    assert_eq!(p.user_ids, vec![1u128, 2u128]);
    assert_eq!(p.target_id, Some(2u128));
    let p = plan_batch("disable", &strings(&[U1]), &None, &None).unwrap();
    assert_eq!(p.target_id, None);
    assert_eq!(batch_audit_action(BatchAction::Disable), "user.batch.disable");
    assert_eq!(batch_audit_action(BatchAction::Enable), "user.batch");
    assert_eq!(parse_ids(&strings(&[U2, "zz", U1])), vec![2u128, 1u128]);
}

#[test]
fn matrix_views_tenants_and_keys() {
    assert_eq!(matrix_view("role"), "role");
    assert_eq!(matrix_view("admin"), "user");
    assert_eq!(matrix_tenant("user", None, &vec![7, 8]), Some(7));
    assert_eq!(matrix_tenant("tenant", None, &vec![7, 8]), None);
    assert_eq!(matrix_tenant("role", Some(9), &vec![7]), Some(9));
    assert_eq!(
        matrix_key("user", 1, None, 2),
        "user:00000000-0000-0000-0000-000000000001:null:00000000-0000-0000-0000-000000000002"
    );
    assert_eq!(
        change_key("role", 1, Some(3), 2, &None),
        "role:00000000-0000-0000-0000-000000000001:00000000-0000-0000-0000-000000000003:00000000-0000-0000-0000-000000000002:new"
    );
    assert_eq!(change_key("tenant", 1, None, 2, &Some("abc".to_string())).rsplit(':').next(), Some("abc"));
}

#[test]
fn matrix_cells_show_the_last_matching_assignment() {
    let keys = vec![matrix_key("user", 1, None, 10), matrix_key("user", 2, None, 10), matrix_key("user", 1, None, 10)];
    assert_eq!(find_last(&keys, &keys[0]), Some(2));
    assert_eq!(find_last(&keys, "missing"), None);
    let grid = matrix_grid("user", &vec![1, 2, 3], None, &vec![10, 11], &keys);
    assert_eq!(grid, vec![vec![Some(2), None], vec![Some(1), None], vec![None, None]]);
    let tkeys = vec![matrix_key("tenant", 5, Some(5), 10)];
    assert_eq!(system_view_grid(&vec![10, 11], &vec![5, 6], &tkeys), vec![vec![Some(0), None], vec![None, None]]);
}

#[test]
fn assignment_changes_are_resolved() {
    assert_eq!(validation(resolve_assignment(&None, &None, &None, "not-a-uuid")), "SYSTEM_NOT_FOUND");
    let t = resolve_assignment(&None, &Some("junk".to_string()), &Some("junk".to_string()), U2).unwrap();
    assert_eq!(t.system, 2);
    assert_eq!(t.subject, 2);
    assert_eq!(t.tenant, None);
    assert_eq!(t.lookup, AssignmentLookup::ByCell);
    let t = resolve_assignment(&Some(U1.to_string()), &Some(U1.to_string()), &Some(U2.to_string()), U2).unwrap();
    assert_eq!(t.subject, 1);
    assert_eq!(t.tenant, Some(2));
    assert_eq!(t.lookup, AssignmentLookup::ById(1));
    let t = resolve_assignment(&Some("temp-1".to_string()), &None, &None, U1).unwrap();
    assert_eq!(t.lookup, AssignmentLookup::Missing);
}

#[test]
fn previews_and_system_checks() {
    assert_eq!(diff_action(false, "{}", "{}"), "create");
    assert_eq!(diff_action(true, "{\"a\":1}", "{\"a\":2}"), "update");
    assert_eq!(diff_action(true, "{\"a\":1}", "{\"a\":1}"), "unchanged");
    assert!(check_systems_found(0, 0).is_ok());
    assert!(check_systems_found(2, 2).is_ok());
    assert!(matches!(check_systems_found(2, 1), Err(AppError::NotFound)));
}

#[test]
fn effective_permission_targets() {
    assert_eq!(effective_user(U1).unwrap(), 1);
    assert_eq!(validation(effective_user("someone")), "MISSING_PARAMS");
    assert_eq!(effective_tenant(Some(1), Some(2), Some(3)).unwrap(), 1);
    assert_eq!(effective_tenant(None, Some(2), Some(3)).unwrap(), 2);
    assert_eq!(effective_tenant(None, None, Some(3)).unwrap(), 3);
    assert_eq!(validation(effective_tenant(None, None, None)), "NO_ACTIVE_TENANT");
}

#[test]
fn integration_checks_use_the_url_parser() {
    let ok = check_integration(&None, "docs", &Some("https://docs.example/callback".to_string()), &None, None, None);
    assert!(ok.passed);
    assert!(ok.callback_url_valid);
    assert_eq!(ok.auth_mode, AuthMode::AuthorizationCode);
    assert_eq!(ok.message, "接入检查通过");
    let bad = check_integration(&Some("mail".to_string()), "docs", &Some("not a url".to_string()), &None, Some(AuthMode::Jwt), None);
    assert!(!bad.system_code_matches);
    assert!(!bad.callback_url_valid);
    assert!(!bad.passed);
    assert_eq!(bad.auth_mode, AuthMode::Jwt);
    assert_eq!(bad.message, "接入检查未通过");
    let stored = check_integration(&None, "docs", &None, &Some("https://x.example".to_string()), None, Some(AuthMode::Jwt));
    assert_eq!(stored.callback_url, Some("https://x.example".to_string()));
    assert_eq!(stored.auth_mode, AuthMode::Jwt);
    assert!(stored.passed);
    let none = check_integration(&None, "docs", &None, &None, None, None);
    assert!(!none.callback_url_valid);
}

#[test]
fn audit_exports_are_csv_documents() {
    assert_eq!(audit_csv(&vec![]), "\u{FEFF}时间,请求ID,操作人,操作,目标类型,目标ID,系统,租户,结果,失败原因\n");
    let rows = vec![AuditExportRow {
        occurred_at: "2024-05-01T08:00:00+00:00".to_string(),
        request_id: None,
        actor_name: "Lee, Ann".to_string(),
        action: "user.update".to_string(),
        target_type: "user".to_string(),
        target_id: Some(U1.to_string()),
        system_name: None,
        tenant_name: Some("默认租户".to_string()),
        result: AuditResult::Failure,
        failure_reason: Some("said \"no\"".to_string()),
    }];
    let csv = audit_csv(&rows);
    let body = csv.split('\n').nth(1).unwrap();
    assert_eq!(
        body,
        format!("2024-05-01T08:00:00+00:00,,\"Lee, Ann\",user.update,user,{},,默认租户,failure,\"said \"\"no\"\"\"", U1)
    );
    assert!(csv.ends_with('\n'));
    assert_eq!(export_file_name(1700000000000), "attachment; filename=\"audits_1700000000000.csv\"");
    assert!(ensure_unused(false, "CODE_EXISTS").is_ok());
    assert!(matches!(ensure_unused(true, "USERNAME_EXISTS"), Err(AppError::Conflict(m)) if m == "USERNAME_EXISTS"));
}
