use portal::model::{AdminScope, AdminType, SystemStatus};
use portal::permissions::{
    admin_type_label, admin_type_to_role, build_scope_summary, build_source_summary, compute_effective,
    derive_identity_label, effective_access, get_effective_context, get_permission_details,
    get_user_system_access, list_effective_contexts, list_user_system_access, parse_admin_type, AssignmentRow,
    GrantRow, PermissionInputs, SystemRow,
};

const SYS_A: u128 = 0xa;
const SYS_B: u128 = 0xb;

fn system(id: u128, code: &str, status: SystemStatus) -> SystemRow {
    SystemRow {
        id,
        code: code.to_string(),
        name: format!("{} name", code),
        description: None,
        category: Some("office".to_string()),
        icon_url: None,
        entry_url: format!("https://{}.example", code),
        status,
    }
}

fn strings(xs: &[&str]) -> Vec<String> {
    xs.iter().map(|s| s.to_string()).collect()
}

fn scope(t: &str, c: &str) -> AdminScope {
    AdminScope { scope_type: t.to_string(), scope_code: c.to_string() }
}

fn assignment(system_id: u128, visible: bool, accessible: bool, roles: &[&str], perms: &[&str]) -> AssignmentRow {
    AssignmentRow {
        system_id,
        visible,
        accessible,
        system_roles: Some(strings(roles)),
        permissions: Some(strings(perms)),
        scopes: vec![],
    }
}

fn inputs(systems: Vec<SystemRow>) -> PermissionInputs {
    let tenant_systems = systems.iter().map(|s| (s.id, true)).collect();
    PermissionInputs {
        membership_active: true,
        systems,
        tenant_systems,
        user_assignments: vec![],
        role_assignments: vec![],
        tenant_assignments: vec![],
        sub_admin_grants: vec![],
    }
}

#[test]
fn direct_and_role_assignments_merge_without_repetition() {
    let mut inp = inputs(vec![system(SYS_A, "docs", SystemStatus::Active)]);
    inp.user_assignments.push(assignment(SYS_A, true, true, &["viewer"], &["read"]));
    inp.role_assignments.push(assignment(SYS_A, false, false, &["viewer", "editor"], &["write", "read"]));
    let c = compute_effective(&inp);
    assert_eq!(c.contexts.len(), 1);
    let ctx = &c.contexts[0];
    assert!(ctx.visible);
    assert!(ctx.accessible);
    assert_eq!(ctx.system_roles, strings(&["viewer", "editor"]));
    assert_eq!(ctx.permissions, strings(&["read", "write"]));
    assert_eq!(ctx.identity_label, "普通用户");
    assert!(!ctx.is_sub_admin);
    assert_eq!(ctx.admin_type, None);
    assert_eq!(c.sources.len(), 1);
    assert_eq!(c.sources[0].0, SYS_A);
    let sources = &c.sources[0].1;
    assert_eq!(sources.len(), 2);
    assert_eq!(sources[0].source_type, "direct");
    assert_eq!(sources[0].label, "直接授权");
    assert_eq!(sources[1].source_type, "role");
    assert_eq!(sources[1].label, "角色授权");
}

#[test]
fn explicit_deny_hides_everything() {
    let mut inp = inputs(vec![system(SYS_A, "docs", SystemStatus::Active)]);
    inp.user_assignments.push(assignment(SYS_A, false, false, &[], &[]));
    inp.role_assignments.push(assignment(SYS_A, true, true, &["editor"], &["write"]));
    let c = compute_effective(&inp);
    let ctx = &c.contexts[0];
    assert!(!ctx.visible);
    assert!(!ctx.accessible);
    assert!(ctx.system_roles.is_empty());
    assert!(ctx.permissions.is_empty());
    assert!(c.sources[0].1.is_empty());
    assert!(list_effective_contexts(&inp).is_empty());
}

#[test]
fn tenant_defaults_apply_only_to_enabled_systems() {
    let mut inp = inputs(vec![system(SYS_A, "docs", SystemStatus::Active), system(SYS_B, "mail", SystemStatus::Active)]);
    inp.tenant_systems = vec![(SYS_A, true), (SYS_B, false)];
    inp.tenant_assignments.push(assignment(SYS_A, true, true, &[], &["export"]));
    inp.tenant_assignments.push(assignment(SYS_B, true, true, &[], &["send"]));
    let c = compute_effective(&inp);
    assert!(c.contexts[0].visible);
    assert_eq!(c.contexts[0].permissions, strings(&["export"]));
    assert_eq!(c.sources[0].1[0].label, "租户默认");
    assert!(!c.contexts[1].visible);
    assert!(c.contexts[1].permissions.is_empty());
    let visible = list_effective_contexts(&inp);
    assert_eq!(visible.len(), 1);
    assert_eq!(visible[0].system_code, "docs");
}

#[test]
fn the_last_tenant_switch_for_a_system_counts() {
    let mut inp = inputs(vec![system(SYS_A, "docs", SystemStatus::Active)]);
    inp.tenant_systems = vec![(SYS_A, true), (SYS_A, false)];
    inp.tenant_assignments.push(assignment(SYS_A, true, true, &[], &["export"]));
    let c = compute_effective(&inp);
    assert!(!c.contexts[0].visible);
}

#[test]
fn sub_admin_grant_makes_an_administrator() {
    let mut inp = inputs(vec![system(SYS_A, "docs", SystemStatus::Active)]);
    inp.sub_admin_grants.push(GrantRow {
        system_id: SYS_A,
        admin_type: AdminType::Module,
        scopes: vec![scope("module", "finance"), scope("module", "finance"), scope("module", "hr")],
    });
    let c = compute_effective(&inp);
    let ctx = &c.contexts[0];
    assert!(ctx.visible && ctx.accessible && ctx.is_sub_admin);
    assert_eq!(ctx.system_roles, strings(&["admin", "module-admin"]));
    assert_eq!(ctx.admin_type, Some("module".to_string()));
    assert_eq!(ctx.admin_scopes.len(), 2);
    assert_eq!(ctx.identity_label, "模块管理员");
    let src = &c.sources[0].1[0];
    assert_eq!(src.source_type, "subadmin");
    assert_eq!(src.label, "子管理员：模块级");
    assert_eq!(src.system_roles, strings(&["module-admin"]));
}

#[test]
fn maintenance_is_visible_but_not_enterable() {
    let mut inp = inputs(vec![system(SYS_A, "docs", SystemStatus::Maintenance)]);
    inp.user_assignments.push(assignment(SYS_A, false, true, &[], &[]));
    inp.role_assignments.push(assignment(SYS_A, false, true, &[], &[]));
    let ctx = get_effective_context(&inp).unwrap();
    assert!(ctx.visible);
    assert!(!ctx.accessible);
}

#[test]
fn onboarding_systems_cannot_be_entered() {
    let mut inp = inputs(vec![system(SYS_A, "docs", SystemStatus::Onboarding)]);
    inp.user_assignments.push(assignment(SYS_A, true, true, &[], &[]));
    let ctx = get_effective_context(&inp).unwrap();
    assert!(ctx.visible);
    assert!(!ctx.accessible);
}

#[test]
fn inactive_membership_sees_nothing() {
    let mut inp = inputs(vec![system(SYS_A, "docs", SystemStatus::Active)]);
    inp.membership_active = false;
    inp.user_assignments.push(assignment(SYS_A, true, true, &[], &[]));
    let c = compute_effective(&inp);
    assert!(c.contexts.is_empty());
    assert!(get_effective_context(&inp).is_none());
    assert!(get_user_system_access(&inp).is_none());
    let d = get_permission_details(&inp, SYS_A);
    assert_eq!(d.context.system_id, SYS_A);
    assert_eq!(d.context.system_code, "");
    assert_eq!(d.context.status, SystemStatus::Disabled);
    assert!(!d.context.visible);
    assert!(d.sources.is_empty() && d.source_summary.is_empty() && d.scope_summary.is_empty());
}

#[test]
fn permission_details_summarize_sources_and_scopes() {
    let mut inp = inputs(vec![system(SYS_A, "docs", SystemStatus::Active)]);
    let mut a = assignment(SYS_A, true, true, &[], &["read"]);
    a.scopes = vec![scope("resource", "r1")];
    inp.user_assignments.push(a);
    inp.role_assignments.push(assignment(SYS_A, false, false, &[], &[]));
    inp.sub_admin_grants.push(GrantRow { system_id: SYS_A, admin_type: AdminType::Tenant, scopes: vec![scope("resource", "r1")] });
    let d = get_permission_details(&inp, SYS_A);
    assert_eq!(d.sources.len(), 3);
    assert_eq!(d.source_summary, strings(&["直接授权", "子管理员：租户级"]));
    assert_eq!(d.scope_summary, strings(&["resource:r1"]));
    assert_eq!(d.context.identity_label, "租户管理员");
    assert_eq!(build_source_summary(&d.sources), d.source_summary);
    assert_eq!(build_scope_summary(&d.sources), d.scope_summary);
}

#[test]
fn identity_label_follows_the_highest_role() {
    assert_eq!(derive_identity_label(&strings(&["admin", "super-admin"]), &vec![]), "超级管理员");
    assert_eq!(derive_identity_label(&strings(&["tenant-admin", "module-admin"]), &vec![]), "租户管理员");
    assert_eq!(derive_identity_label(&strings(&["viewer"]), &vec![scope("module", "a")]), "模块管理员");
    assert_eq!(derive_identity_label(&strings(&["admin"]), &vec![]), "管理员");
    assert_eq!(derive_identity_label(&strings(&[]), &vec![]), "普通用户");
}

#[test]
fn admin_levels_have_roles_labels_and_names() {
    assert_eq!(admin_type_to_role(&AdminType::System), "super-admin");
    assert_eq!(admin_type_to_role(&AdminType::Tenant), "tenant-admin");
    assert_eq!(admin_type_to_role(&AdminType::Module), "module-admin");
    assert_eq!(admin_type_to_role(&AdminType::Resource), "admin");
    assert_eq!(admin_type_to_role(&AdminType::Organization), "admin");
    assert_eq!(admin_type_label(&AdminType::Organization), "组织级");
    assert_eq!(parse_admin_type("resource"), Some(AdminType::Resource));
    assert_eq!(parse_admin_type("Resource"), None);
}

#[test]
fn system_access_mirrors_visible_contexts() {
    let mut inp = inputs(vec![system(SYS_A, "docs", SystemStatus::Active), system(SYS_B, "mail", SystemStatus::Active)]);
    inp.user_assignments.push(assignment(SYS_B, true, false, &["reader"], &[]));
    inp.sub_admin_grants.push(GrantRow { system_id: SYS_B, admin_type: AdminType::Organization, scopes: vec![] });
    let list = list_user_system_access(&inp);
    assert_eq!(list.len(), 1);
    assert_eq!(list[0].system_code, "mail");
    assert!(list[0].accessible);
    assert_eq!(list[0].admin_type, Some(AdminType::Organization));
    assert_eq!(list[0].identity_label, "管理员");
}

#[test]
fn effective_access_falls_back_to_nothing() {
    let inp = inputs(vec![]);
    let a = effective_access(&inp, SYS_A, "docs", "Docs");
    assert_eq!(a.system_id, SYS_A);
    assert_eq!(a.system_code, "docs");
    assert_eq!(a.name, "Docs");
    assert!(!a.visible && !a.accessible && !a.is_sub_admin);
    assert_eq!(a.status, SystemStatus::Active);
    assert!(a.entry_url.is_empty() && a.identity_label.is_empty());
    let mut inp = inputs(vec![system(SYS_A, "docs", SystemStatus::Active)]);
    inp.user_assignments.push(assignment(SYS_A, true, true, &[], &["read"]));
    let a = effective_access(&inp, SYS_A, "ignored", "ignored");
    assert_eq!(a.system_code, "docs");
    assert_eq!(a.permissions, strings(&["read"]));
}

#[test]
fn a_system_the_tenant_has_not_enabled_cannot_be_entered() {
    let mut inp = inputs(vec![system(SYS_A, "docs", SystemStatus::Active)]);
    inp.tenant_systems = vec![(SYS_A, false)];
    inp.user_assignments.push(assignment(SYS_A, true, true, &["viewer"], &["read"]));
    let ctx = &compute_effective(&inp).contexts[0];
    assert!(ctx.visible);
    assert!(!ctx.accessible);
    inp.tenant_systems = vec![];
    assert!(!compute_effective(&inp).contexts[0].accessible);
}

#[test]
fn scopes_are_told_apart_by_type_and_code() {
    let mut inp = inputs(vec![system(SYS_A, "docs", SystemStatus::Active)]);
    inp.sub_admin_grants.push(GrantRow {
        system_id: SYS_A,
        admin_type: AdminType::Module,
        scopes: vec![scope("a:b", "c"), scope("a", "b:c"), scope("a", "b:c")],
    });
    let ctx = &compute_effective(&inp).contexts[0];
    assert_eq!(ctx.admin_scopes.len(), 2);
    assert_eq!(ctx.admin_scopes[0].scope_type, "a:b");
    assert_eq!(ctx.admin_scopes[1].scope_type, "a");
}
