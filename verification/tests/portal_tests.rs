use portal::error::AppError;
use portal::json::{env_example, frequent_systems, masked_key, opt_sanitize, sanitize_audit_value, Json};
use portal::me::{access_denied_texts, aggregate_details, reason_info};
use portal::model::{AdminScope, SystemStatus};
use portal::permissions::{get_permission_details, AssignmentRow, PermissionInputs, SystemAccess, SystemRow};
use portal::portal::{
    callback_target, group_systems, require_enterable, resolve_enter_tenant, select_current_tenant, HomeGroup,
    TenantSummary,
};

fn s(x: &str) -> String {
    x.to_string()
}

fn access(code: &str, status: SystemStatus, accessible: bool, perms: &[&str]) -> SystemAccess {
    SystemAccess {
        system_id: 1,
        system_code: s(code),
        name: format!("{} app", code),
        description: None,
        icon_url: None,
        entry_url: s("https://example"),
        category: None,
        status,
        visible: true,
        accessible,
        system_roles: vec![],
        permissions: perms.iter().map(|p| s(p)).collect(),
        scopes: vec![],
        identity_label: s("普通用户"),
        is_sub_admin: false,
        admin_type: None,
    }
}

fn tenant(id: u128, code: &str) -> TenantSummary {
    TenantSummary { id, code: s(code), name: format!("{} tenant", code) }
}

#[test]
fn the_current_tenant_is_chosen_among_the_available_ones() {
    let ts = vec![tenant(1, "a"), tenant(2, "b")];
    assert_eq!(select_current_tenant(Some(2), Some(1), &ts), Some(1));
    assert_eq!(select_current_tenant(None, Some(2), &ts), Some(1));
    assert_eq!(select_current_tenant(Some(9), Some(2), &ts), Some(0));
    assert_eq!(select_current_tenant(None, None, &ts), Some(0));
    assert_eq!(select_current_tenant(Some(1), None, &vec![]), None);
}

#[test]
fn home_groups() {
    let cs = vec![
        access("docs", SystemStatus::Active, true, &["a", "b", "c", "d"]),
        access("mail", SystemStatus::Maintenance, false, &[]),
        access("new", SystemStatus::Onboarding, false, &[]),
        access("crm", SystemStatus::Active, false, &["x"]),
    ];
    let pinned = vec![s("docs"), s("crm"), s("mail")];
    let frequent = group_systems(HomeGroup::Frequent, &cs, &pinned, "Default");
    let codes: Vec<&str> = frequent.iter().map(|x| x.system_code.as_str()).collect();
    assert_eq!(codes, vec!["docs", "mail", "crm"]);
    assert!(!frequent[1].enterable);
    let mut hidden = access("mail", SystemStatus::Maintenance, false, &[]);
    hidden.visible = false;
    assert!(group_systems(HomeGroup::Frequent, &vec![hidden], &pinned, "Default").is_empty());
    assert_eq!(frequent[0].permission_summary, vec![s("a"), s("b"), s("c")]);
    assert_eq!(frequent[0].tenant_label, "Default");
    assert!(frequent[0].enterable);
    let all = group_systems(HomeGroup::All, &cs, &pinned, "Default");
    let codes: Vec<&str> = all.iter().map(|x| x.system_code.as_str()).collect();
    assert_eq!(codes, vec!["docs", "new", "crm"]);
    let maint = group_systems(HomeGroup::Maintenance, &cs, &pinned, "Default");
    assert_eq!(maint.len(), 1);
    assert!(!maint[0].enterable);
}

#[test]
fn entering_a_subsystem() {
    assert_eq!(resolve_enter_tenant(Some(2), Some(1), &vec![1, 2]).unwrap(), 2);
    assert_eq!(resolve_enter_tenant(None, Some(1), &vec![1, 2]).unwrap(), 1);
    assert_eq!(resolve_enter_tenant(None, None, &vec![3, 2]).unwrap(), 3);
    assert!(matches!(resolve_enter_tenant(None, None, &vec![]), Err(AppError::TenantDisabled)));
    assert!(matches!(resolve_enter_tenant(Some(9), None, &vec![1]), Err(AppError::TenantDisabled)));
    assert!(matches!(resolve_enter_tenant(None, Some(9), &vec![1]), Err(AppError::TenantDisabled)));
    assert!(require_enterable(&Some(access("docs", SystemStatus::Active, true, &[]))).is_ok());
    assert!(matches!(require_enterable(&Some(access("docs", SystemStatus::Active, false, &[]))), Err(AppError::PermissionDenied)));
    assert!(matches!(require_enterable(&None), Err(AppError::PermissionDenied)));
    assert_eq!(callback_target(Some(s("https://cb")), s("https://entry")), "https://cb");
    assert_eq!(callback_target(None, s("https://entry")), "https://entry");
}

#[test]
fn secrets_are_masked_at_any_depth() {
    assert!(masked_key("Password"));
    assert!(masked_key("PRIVATE_KEY"));
    assert!(masked_key("tO\u{212A}en"));
    assert!(masked_key("passwords"));
    assert!(masked_key("accessToken"));
    assert!(masked_key("client_secret"));
    assert!(masked_key("newPassword"));
    assert!(masked_key("rsaPrivateKey"));
    assert!(!masked_key("username"));
    assert!(!masked_key("tok"));
    let v = Json::Object(vec![
        (s("user"), Json::Str(s("alice"))),
        (s("Token"), Json::Str(s("abc"))),
        (s("secret"), Json::Number(s("42"))),
        (
            s("nested"),
            Json::Array(vec![Json::Object(vec![(s("password_hash"), Json::Str(s("$2b$...")))]), Json::Bool(true)]),
        ),
    ]);
    let out = sanitize_audit_value(&v);
    let expected = Json::Object(vec![
        (s("user"), Json::Str(s("alice"))),
        (s("Token"), Json::Str(s("***"))),
        (s("secret"), Json::Number(s("42"))),
        (
            s("nested"),
            Json::Array(vec![Json::Object(vec![(s("password_hash"), Json::Str(s("***")))]), Json::Bool(true)]),
        ),
    ]);
    assert_eq!(format!("{:?}", out), format!("{:?}", expected));
    let v = Json::Object(vec![
        (s("accessToken"), Json::Str(s("abc"))),
        (s("client_secret"), Json::Str(s("def"))),
        (s("newPassword"), Json::Str(s("ghi"))),
    ]);
    let expected = Json::Object(vec![
        (s("accessToken"), Json::Str(s("***"))),
        (s("client_secret"), Json::Str(s("***"))),
        (s("newPassword"), Json::Str(s("***"))),
    ]);
    assert_eq!(format!("{:?}", sanitize_audit_value(&v)), format!("{:?}", expected));
    assert!(opt_sanitize(&None).is_none());
    assert_eq!(format!("{:?}", opt_sanitize(&Some(Json::Null))), "Some(Null)");
}

#[test]
fn pinned_systems_come_from_the_preferences() {
    let prefs = Json::Object(vec![
        (s("theme"), Json::Str(s("dark"))),
        (s("frequentSystems"), Json::Array(vec![Json::Str(s("docs")), Json::Number(s("1")), Json::Str(s("crm"))])),
        (s("frequentSystems"), Json::Array(vec![Json::Str(s("ignored"))])),
    ]);
    assert_eq!(frequent_systems(&prefs), vec![s("docs"), s("crm")]);
    assert!(frequent_systems(&Json::Null).is_empty());
    assert!(frequent_systems(&Json::Object(vec![(s("frequentSystems"), Json::Str(s("docs")))])).is_empty());
}

#[test]
fn refusals_are_explained() {
    assert_eq!(reason_info("maintenance"), ("系统维护中", "目标系统正在维护，维护期间暂不可用。", "稍后再试"));
    assert_eq!(reason_info("whatever").0, "暂无访问权限");
    assert_eq!(reason_info("SYSTEM_DISABLED").0, "系统已停用");
    assert_eq!(reason_info("TENANT_DISABLED").0, "租户已停用");
    assert_eq!(reason_info("AUTH_REQUIRED").2, "重新登录");
    assert_eq!(reason_info("SYSTEM_MAINTENANCE").0, "系统维护中");
    assert_eq!(reason_info("INVALID_SUBSYSTEM_TICKET").2, "重新登录或重新进入");
    assert_eq!(reason_info("PERMISSION_DENIED").0, "暂无访问权限");
    let t = access_denied_texts(None, None);
    assert_eq!(t.reason, "no_permission");
    assert_eq!(t.return_to, "/");
    assert_eq!(t.title, "暂无访问权限");
    let t = access_denied_texts(Some(s("session_expired")), Some(s("/apps")));
    assert_eq!(t.title, "登录已过期");
    assert_eq!(t.recovery_action, "重新登录");
    assert_eq!(t.return_to, "/apps");
}

fn details(code: &str, visible: bool, accessible: bool, perms: &[&str], scope: Option<(&str, &str)>) -> portal::permissions::PermissionDetails {
    let mut scopes = vec![];
    if let Some((t, c)) = scope {
        scopes.push(AdminScope { scope_type: s(t), scope_code: s(c) });
    }
    let inp = PermissionInputs {
        membership_active: true,
        systems: vec![SystemRow {
            id: 1,
            code: s(code),
            name: s(code),
            description: None,
            category: None,
            icon_url: None,
            entry_url: s("https://e"),
            status: SystemStatus::Active,
        }],
        tenant_systems: vec![(1, true)],
        user_assignments: vec![AssignmentRow {
            system_id: 1,
            visible,
            accessible,
            system_roles: None,
            permissions: Some(perms.iter().map(|p| s(p)).collect()),
            scopes,
        }],
        role_assignments: vec![],
        tenant_assignments: vec![],
        sub_admin_grants: vec![],
    };
    get_permission_details(&inp, 1)
}

#[test]
fn one_system_across_tenants() {
    let items = vec![
        (s("Alpha"), details("docs", true, true, &["read", "write"], Some(("module", "a")))),
        (s("Beta"), details("docs", false, false, &["hidden"], None)),
        (s("Gamma"), details("docs", true, false, &["write", "export"], Some(("module", "a")))),
    ];
    let agg = aggregate_details(&items);
    assert_eq!(agg.permissions, vec![s("read"), s("write"), s("export")]);
    assert_eq!(agg.admin_scopes.len(), 1);
    assert_eq!(agg.scope_summary, vec![s("module:a")]);
    assert_eq!(agg.context_preview, "Alpha：模块管理员（可进入）；Gamma：模块管理员（仅可见）");
}

#[test]
fn environment_templates_become_examples() {
    let t = Json::Object(vec![
        (s("PORTAL_ISSUER"), Json::Str(s("https://portal"))),
        (s("PORTAL_TTL"), Json::Number(s("300"))),
        (s("CLIENT_ID"), Json::Str(s("docs"))),
    ]);
    assert_eq!(env_example(&t), "PORTAL_ISSUER=https://portal\nPORTAL_TTL=\nCLIENT_ID=docs");
    assert_eq!(env_example(&Json::Object(vec![])), "");
    assert_eq!(env_example(&Json::Null), "");
}
