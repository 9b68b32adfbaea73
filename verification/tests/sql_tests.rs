use portal::edits::{
    changed_callback_url, config_update_sql, grant_update_sql, integration_update_sql, new_config_record,
    new_integration_record, next_system_status, role_update_sql, string_list_json, system_status_sql,
    system_update_sql, tenant_newly_disabled, tenant_update_action, tenant_update_sql, user_newly_disabled,
    user_update_action, user_update_sql, GrantChanges, IntegrationChanges, IntegrationConfigInput, RoleChanges,
    SystemChanges, TenantChanges, UserChanges,
};
use portal::filters::{
    audit_where, clamp_take, grant_where, integration_where, role_where, system_where, tenant_where, total_pages,
    user_where, AuditFilter, GrantFilter, ListFilter, UserFilter,
};
use portal::links::{new_default_tenant, plan_links};
use portal::model::{AdminType, AuthMode, GrantStatus, RoleType, SystemStatus, TenantStatus, UserStatus};
use portal::overview::{actor_label, overview_todos_of};
use portal::sql::{keep_present, nullable_value, quote, update_statement};

const ID1: &str = "00000000-0000-0000-0000-000000000001";

fn s(x: &str) -> Option<String> {
    Some(x.to_string())
}

fn strings(xs: &[&str]) -> Vec<String> {
    xs.iter().map(|v| v.to_string()).collect()
}

#[test]
fn literals_and_blank_values() {
    assert_eq!(quote("it's"), "'it''s'");
    assert_eq!(nullable_value("   "), "NULL");
    assert_eq!(nullable_value("  a'b "), "'a''b'");
    assert_eq!(keep_present(&vec![None, s("x"), None, s("y")]), strings(&["x", "y"]));
    assert_eq!(
        update_statement("t", &strings(&["a = 1", "b = 2"]), "id", 1, " RETURNING id"),
        format!("UPDATE t SET a = 1, b = 2 WHERE id = '{}' RETURNING id", ID1)
    );
}

#[test]
fn account_changes_become_one_statement() {
    let none = UserChanges { display_name: None, email: None, phone: None, organization_path: None, status: None };
    assert_eq!(user_update_sql(1, &none), None);
    let c = UserChanges {
        display_name: s("O'Neil"),
        email: s("  "),
        phone: None,
        organization_path: s(" /hq/it "),
        status: Some(UserStatus::Disabled),
    };
    assert_eq!(
        user_update_sql(1, &c).unwrap(),
        format!(
            "UPDATE portal_users SET display_name = 'O''Neil', email = NULL, organization_path = '/hq/it', status = 'disabled', updated_at = NOW() WHERE id = '{}' RETURNING id, username, display_name, email, phone, avatar_url, organization_path, status, default_tenant_id, preferences, last_login_at, created_at, updated_at",
            ID1
        )
    );
    assert!(user_newly_disabled(Some(UserStatus::Disabled), UserStatus::Active));
    assert!(!user_newly_disabled(Some(UserStatus::Disabled), UserStatus::Disabled));
    assert!(!user_newly_disabled(Some(UserStatus::Active), UserStatus::Active));
    assert_eq!(user_update_action(true), "user.disable");
    assert_eq!(user_update_action(false), "user.update");
}

#[test]
fn tenant_and_role_changes() {
    let t = TenantChanges { name: None, description: s(""), status: Some(TenantStatus::Archived) };
    assert_eq!(
        tenant_update_sql(1, &t).unwrap(),
        format!(
            "UPDATE portal_tenants SET description = NULL, status = 'archived', updated_at = NOW() WHERE id = '{}' RETURNING id, code, name, status, description, created_at, updated_at",
            ID1
        )
    );
    assert_eq!(tenant_update_sql(1, &TenantChanges { name: None, description: None, status: None }), None);
    assert!(tenant_newly_disabled(Some(TenantStatus::Disabled), TenantStatus::Active));
    assert_eq!(tenant_update_action(true), "tenant.disable");
    assert_eq!(tenant_update_action(false), "tenant.update");
    let r = RoleChanges { name: s("Auditors"), description: None, role_type: Some(RoleType::SubsystemAdmin) };
    assert_eq!(
        role_update_sql(1, &r).unwrap(),
        format!(
            "UPDATE portal_roles SET name = 'Auditors', role_type = 'subsystem_admin', updated_at = NOW() WHERE id = '{}' RETURNING id, code, name, role_type, description, is_builtin, created_at, updated_at",
            ID1
        )
    );
}

#[test]
fn subsystem_changes_and_status_cycle() {
    assert_eq!(string_list_json(&strings(&["a", "b\"c"])), "[\"a\",\"b\\\"c\"]");
    let c = SystemChanges {
        name: None,
        description: None,
        category: s(" ops "),
        icon_url: None,
        entry_url: None,
        callback_url: None,
        portal_managed: Some(true),
        auth_enabled: None,
        supports_sub_admin: Some(false),
        supported_identity_levels: Some(strings(&["user", "admin"])),
        supported_permissions: None,
        supported_scopes: s("[]"),
    };
    assert_eq!(
        system_update_sql(1, &c).unwrap(),
        format!(
            "UPDATE portal_systems SET category = 'ops', portal_managed = true, supports_sub_admin = false, supported_identity_levels = '[\"user\",\"admin\"]', supported_scopes = '[]', updated_at = NOW() WHERE id = '{}' RETURNING id, code, name, description, category, icon_url, entry_url, callback_url, status, portal_managed, auth_enabled, supports_sub_admin, supported_identity_levels, supported_permissions, supported_scopes, created_at, updated_at",
            ID1
        )
    );
    assert_eq!(next_system_status(SystemStatus::Active, None), SystemStatus::Maintenance);
    assert_eq!(next_system_status(SystemStatus::Maintenance, None), SystemStatus::Disabled);
    assert_eq!(next_system_status(SystemStatus::Disabled, None), SystemStatus::Onboarding);
    assert_eq!(next_system_status(SystemStatus::Onboarding, None), SystemStatus::Active);
    assert_eq!(next_system_status(SystemStatus::Onboarding, Some(SystemStatus::Disabled)), SystemStatus::Disabled);
    let mut st = SystemStatus::Disabled;
    for _ in 0..4 {
        st = next_system_status(st, None);
    }
    assert_eq!(st, SystemStatus::Disabled);
    assert!(system_status_sql(1, SystemStatus::Maintenance)
        .starts_with(&format!("UPDATE portal_systems SET status = 'maintenance', updated_at = NOW() WHERE id = '{}' RETURNING id,", ID1)));
}

#[test]
fn integration_settings() {
    let cfg = IntegrationConfigInput {
        issuer: None,
        auth_mode: AuthMode::Jwt,
        token_ttl_seconds: -5,
        public_key: s(" key "),
        verify_endpoint: None,
        env_template: "{\"A\":\"it's\"}".to_string(),
    };
    assert_eq!(
        config_update_sql(1, &cfg),
        format!(
            "UPDATE portal_integration_configs SET updated_at = NOW(), auth_mode = 'jwt', token_ttl_seconds = -5, public_key = ' key ', verify_endpoint = NULL, env_template = '{{\"A\":\"it''s\"}}' WHERE system_id = '{}'",
            ID1
        )
    );
    let rec = new_config_record(&cfg);
    assert_eq!(rec.issuer, "http://localhost:8080");
    assert_eq!(rec.public_key, s("key"));
    assert_eq!(rec.verify_endpoint, None);
    assert_eq!(rec.token_ttl_seconds, -5);
    let ch = IntegrationChanges {
        issuer: s("https://portal"),
        auth_mode: None,
        token_ttl_seconds: Some(600),
        public_key: None,
        verify_endpoint: None,
        env_template: None,
        callback_url: s("  https://cb  "),
    };
    assert_eq!(
        integration_update_sql(1, &ch),
        format!(
            "UPDATE portal_integration_configs SET updated_at = NOW(), issuer = 'https://portal', token_ttl_seconds = 600 WHERE system_id = '{}'",
            ID1
        )
    );
    assert_eq!(changed_callback_url(&ch), s("https://cb"));
    let rec = new_integration_record(&ch);
    assert_eq!(rec.issuer, "https://portal");
    assert_eq!(rec.auth_mode, AuthMode::AuthorizationCode);
    assert_eq!(rec.token_ttl_seconds, 600);
    assert_eq!(rec.env_template, "{}");
}

#[test]
fn grant_changes_always_record_who() {
    let c = GrantChanges {
        admin_type: Some(AdminType::Resource),
        scopes: None,
        status: Some(GrantStatus::Inactive),
        reason: s("rotation"),
        starts_at: None,
        expires_at: None,
    };
    assert_eq!(
        grant_update_sql(1, 1, &c),
        format!(
            "UPDATE portal_sub_admin_grants SET admin_type = 'resource', status = 'inactive', reason = 'rotation', expires_at = NULL, updated_at = NOW(), updated_by = '{0}' WHERE id = '{0}' RETURNING id, user_id, tenant_id, system_id, admin_type, scopes, status, reason, starts_at, expires_at, created_by, updated_by, created_at, updated_at",
            ID1
        )
    );
    let c = GrantChanges { admin_type: None, scopes: None, status: None, reason: None, starts_at: None, expires_at: s("2030-01-01T00:00:00+00:00") };
    assert!(grant_update_sql(1, 1, &c)
        .starts_with("UPDATE portal_sub_admin_grants SET expires_at = '2030-01-01T00:00:00+00:00', updated_at = NOW(), updated_by = "));
}

#[test]
fn list_filters() {
    let f = UserFilter {
        keyword: s("a%"),
        status: s("active"),
        role_code: s("super-admin"),
        tenant_id: s("not-an-id"),
        system_code: s("ignored"),
        organization_path: None,
    };
    assert_eq!(
        user_where(&f),
        "1=1 AND u.status = 'active' AND (u.username ILIKE '%a\\%%' OR u.display_name ILIKE '%a\\%%' OR u.email ILIKE '%a\\%%' OR u.phone ILIKE '%a\\%%') AND EXISTS (SELECT 1 FROM portal_user_roles ur JOIN portal_roles r ON r.id = ur.role_id WHERE ur.user_id = u.id AND ur.tenant_id IS NULL AND r.code = 'super-admin')"
    );
    let f = UserFilter { keyword: None, status: None, role_code: None, tenant_id: s(ID1), system_code: None, organization_path: s("hq") };
    assert_eq!(
        user_where(&f),
        format!("1=1 AND u.organization_path ILIKE '%hq%' AND EXISTS (SELECT 1 FROM portal_tenant_members tm WHERE tm.user_id = u.id AND tm.tenant_id = '{}')", ID1)
    );
    let l = ListFilter { keyword: s("x"), status: s("active"), category: s("ops"), role_type: s("custom") };
    assert_eq!(tenant_where(&l), "1=1 AND status = 'active' AND (code ILIKE '%x%' OR name ILIKE '%x%')");
    assert_eq!(role_where(&l), "1=1 AND role_type = 'custom' AND (code ILIKE '%x%' OR name ILIKE '%x%')");
    assert_eq!(system_where(&l), "1=1 AND status = 'active' AND category ILIKE '%ops%' AND (code ILIKE '%x%' OR name ILIKE '%x%')");
    assert_eq!(integration_where(&l), "portal_managed = true AND status = 'active' AND (code ILIKE '%x%' OR name ILIKE '%x%')");
    let empty = ListFilter { keyword: None, status: None, category: None, role_type: None };
    assert_eq!(system_where(&empty), "1=1");
    let g = GrantFilter { status: None, system_code: s("docs"), tenant_id: s("bad"), user_id: s(ID1), keyword: None };
    assert_eq!(grant_where(&g), format!("1=1 AND s.code = 'docs' AND g.user_id = '{}'", ID1));
    let a = AuditFilter {
        occurred_at_from: s("2024-01-01T00:00:00+00:00"),
        occurred_at_to: None,
        actor_user_id: None,
        action: s("user."),
        target_type: None,
        system_id: None,
        tenant_id: s(ID1),
        result: s("failure"),
    };
    assert_eq!(
        audit_where(&a),
        format!("1=1 AND a.occurred_at >= '2024-01-01T00:00:00+00:00' AND a.action ILIKE '%user.%' AND a.tenant_id = '{}' AND a.result = 'failure'", ID1)
    );
    assert_eq!(clamp_take(0), 1);
    assert_eq!(clamp_take(50), 50);
    assert_eq!(clamp_take(1000), 200);
    assert_eq!(total_pages(0, 20), 0);
    assert_eq!(total_pages(20, 20), 1);
    assert_eq!(total_pages(21, 20), 2);
}

#[test]
fn replacing_links() {
    let existing = vec![(100u128, 1u128), (101, 2), (102, 3)];
    let requested = strings(&["00000000-0000-0000-0000-000000000002", "00000000-0000-0000-0000-000000000004", "junk", "00000000-0000-0000-0000-000000000003"]);
    let plan = plan_links(&existing, &requested);
    assert_eq!(plan.remove, vec![100]);
    assert_eq!(plan.add, vec![4]);
    let again = plan_links(&vec![(101, 2), (102, 3), (200, 4)], &requested);
    assert!(again.remove.is_empty());
    assert!(again.add.is_empty());
    let upper = plan_links(&vec![(100, 10)], &strings(&["00000000-0000-0000-0000-00000000000A"]));
    assert_eq!(upper.remove, vec![100]);
    assert_eq!(upper.add, vec![10]);
    assert_eq!(new_default_tenant(Some(2), &requested), None);
    assert_eq!(new_default_tenant(None, &requested), Some(2));
    assert_eq!(new_default_tenant(Some(1), &strings(&["bad"])), None);
    assert_eq!(new_default_tenant(Some(1), &strings(&[])), None);
}

#[test]
fn overview_todos() {
    let todos = overview_todos_of(&vec![(1, "Docs".to_string())], 3, 0);
    assert_eq!(todos.len(), 2);
    assert_eq!(todos[0].kind, "integration_incomplete");
    assert_eq!(todos[0].title, "Docs 接入配置未完成");
    assert_eq!(todos[0].target_type, "system");
    assert_eq!(todos[0].target_id, ID1);
    assert_eq!(todos[1].kind, "pending_users");
    assert_eq!(todos[1].title, "3 位待激活用户已分配权限");
    assert_eq!(todos[1].target_id, "");
    let todos = overview_todos_of(&vec![], 0, 12);
    assert_eq!(todos.len(), 1);
    assert_eq!(todos[0].title, "近 24 小时 12 次凭证校验失败");
    assert!(overview_todos_of(&vec![], 0, 0).is_empty());
    assert_eq!(actor_label(&None), "系统");
    assert_eq!(actor_label(&s("Alice")), "Alice");
}

#[test]
fn quoted_literals_read_back_as_written() {
    for text in ["", "plain", "it's", "''", "a'b''c'", "名'字"] {
        let q = quote(text);
        assert!(q.starts_with('\'') && q.ends_with('\''));
        let body = &q[1..q.len() - 1];
        assert_eq!(body.replace("''", "'"), text);
    }
}
