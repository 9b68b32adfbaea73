//! Properties of the effective permission computation that hold for every input.

use vstd::prelude::*;
use crate::model::{Id, SystemStatus, ScopeView, AdminType, admin_type_name};
use crate::permissions::{
    AssignmentView, GrantView, SourceView, ContextView, SystemView, PermissionInputs,
    expected_context, expected_contexts, system_sources, explicit_deny, assignment_sources,
    assignment_source, grant_sources, grant_source, all_roles, contributed_roles, any_visible,
    any_accessible, admin_role_spec, last_grant_type, identity_label_spec, distinct_keys,
    upsert_all, lemma_upsert_all_distinct, visible_only, all_permissions, summary_labels, admin_type_from_name,
};
use crate::text::{dedup, lemma_insert_all_contents};

verus! {

/// Every row of `rows` on system `id` is recorded as a source.
pub proof fn lemma_assignment_sources_contain(
    rows: Seq<AssignmentView>,
    id: Id,
    source_type: Seq<char>,
    label: Seq<char>,
    i: int,
)
    requires
        0 <= i < rows.len(),
        rows[i].system_id == id,
    ensures
        assignment_sources(rows, id, source_type, label).contains(
            assignment_source(rows[i], source_type, label),
        ),
    decreases rows.len(),
{
    let prev = assignment_sources(rows.drop_last(), id, source_type, label);
    if i == rows.len() - 1 {
        let s = assignment_source(rows[i], source_type, label);
        assert(prev.push(s)[prev.len() as int] == s);
    } else {
        assert(rows.drop_last()[i] == rows[i]);
        lemma_assignment_sources_contain(rows.drop_last(), id, source_type, label, i);
        let s = assignment_source(rows[i], source_type, label);
        let k = choose|k: int| 0 <= k < prev.len() && prev[k] == s;
        if rows.last().system_id == id {
            assert(prev.push(assignment_source(rows.last(), source_type, label))[k] == s);
        }
    }
}

/// Every grant on system `id` is recorded as a source.
pub proof fn lemma_grant_sources_contain(grants: Seq<GrantView>, id: Id, i: int)
    requires
        0 <= i < grants.len(),
        grants[i].system_id == id,
    ensures
        grant_sources(grants, id).contains(grant_source(grants[i])),
        last_grant_type(grants, id).is_some(),
    decreases grants.len(),
{
    let prev = grant_sources(grants.drop_last(), id);
    if i == grants.len() - 1 {
        let s = grant_source(grants[i]);
        assert(prev.push(s)[prev.len() as int] == s);
    } else {
        assert(grants.drop_last()[i] == grants[i]);
        lemma_grant_sources_contain(grants.drop_last(), id, i);
        let s = grant_source(grants[i]);
        let k = choose|k: int| 0 <= k < prev.len() && prev[k] == s;
        if grants.last().system_id == id {
            assert(prev.push(grant_source(grants.last()))[k] == s);
        }
    }
}

/// Every role that a counted source contributes is among all contributed roles.
pub proof fn lemma_all_roles_contain(srcs: Seq<SourceView>, s: SourceView, x: Seq<char>)
    requires
        srcs.contains(s),
        contributed_roles(s).contains(x),
    ensures
        all_roles(srcs).contains(x),
    decreases srcs.len(),
{
    let k = choose|k: int| 0 <= k < srcs.len() && srcs[k] == s;
    let prev = all_roles(srcs.drop_last());
    let last = contributed_roles(srcs.last());
    if k == srcs.len() - 1 {
        let j = choose|j: int| 0 <= j < last.len() && last[j] == x;
        assert((prev + last)[prev.len() + j] == x);
    } else {
        assert(srcs.drop_last()[k] == s);
        lemma_all_roles_contain(srcs.drop_last(), s, x);
        let j = choose|j: int| 0 <= j < prev.len() && prev[j] == x;
        assert((prev + last)[j] == x);
    }
}

/// An explicit revocation by a direct assignment overrides every other grant: the
/// system is then visible only while under maintenance, cannot be entered, and
/// carries no role, permission, scope or sub-administrator identity.
pub proof fn law_explicit_deny_overrides(
    system: SystemView,
    tenant_enabled: bool,
    user_rows: Seq<AssignmentView>,
    role_rows: Seq<AssignmentView>,
    tenant_rows: Seq<AssignmentView>,
    grants: Seq<GrantView>,
)
    requires
        explicit_deny(user_rows, system.id),
    ensures
        ({
            let c = expected_context(system, tenant_enabled, user_rows, role_rows, tenant_rows, grants);
            &&& !c.accessible
            &&& c.visible == (system.status == SystemStatus::Maintenance)
            &&& c.system_roles.len() == 0
            &&& c.permissions.len() == 0
            &&& c.admin_scopes.len() == 0
            &&& !c.is_sub_admin
            &&& c.admin_type.is_none()
            &&& c.identity_label == "普通用户"@
        }),
{
    let srcs = system_sources(system.id, tenant_enabled, user_rows, role_rows, tenant_rows, grants);
    assert(srcs.len() == 0);
    assert(all_roles(srcs) =~= Seq::<Seq<char>>::empty());
    assert(dedup(all_roles(srcs)) =~= Seq::<Seq<char>>::empty());
    assert(dedup(all_permissions(srcs)) =~= Seq::<Seq<char>>::empty());
}

/// A system under maintenance is shown to everyone who can reach the computation, and
/// nobody can enter it.
pub proof fn law_maintenance_visible_not_enterable(
    system: SystemView,
    tenant_enabled: bool,
    user_rows: Seq<AssignmentView>,
    role_rows: Seq<AssignmentView>,
    tenant_rows: Seq<AssignmentView>,
    grants: Seq<GrantView>,
)
    requires
        system.status == SystemStatus::Maintenance,
    ensures
        expected_context(system, tenant_enabled, user_rows, role_rows, tenant_rows, grants).visible,
        !expected_context(system, tenant_enabled, user_rows, role_rows, tenant_rows, grants).accessible,
{
}

/// Only an active system can be entered.
pub proof fn law_enterable_only_when_active(
    system: SystemView,
    tenant_enabled: bool,
    user_rows: Seq<AssignmentView>,
    role_rows: Seq<AssignmentView>,
    tenant_rows: Seq<AssignmentView>,
    grants: Seq<GrantView>,
)
    ensures
        expected_context(system, tenant_enabled, user_rows, role_rows, tenant_rows, grants).accessible
            ==> system.status == SystemStatus::Active,
{
}

/// Only a system that the tenant has enabled can be entered, whatever is assigned.
pub proof fn law_entry_needs_tenant_enabled(
    system: SystemView,
    user_rows: Seq<AssignmentView>,
    role_rows: Seq<AssignmentView>,
    tenant_rows: Seq<AssignmentView>,
    grants: Seq<GrantView>,
)
    ensures
        !expected_context(system, false, user_rows, role_rows, tenant_rows, grants).accessible,
{
}

/// Tenant default assignments count only where the tenant has the system enabled.
pub proof fn law_tenant_defaults_need_enabled_system(
    system: SystemView,
    user_rows: Seq<AssignmentView>,
    role_rows: Seq<AssignmentView>,
    tenant_rows: Seq<AssignmentView>,
    grants: Seq<GrantView>,
)
    ensures
        expected_context(system, false, user_rows, role_rows, tenant_rows, grants)
            == expected_context(system, false, user_rows, role_rows, Seq::empty(), grants),
{
}

/// Without an explicit revocation, a direct or role assignment that shows the system
/// makes it visible, and one that allows entry makes an active system that the tenant
/// has enabled enterable.
pub proof fn law_assignment_grants_access(
    system: SystemView,
    tenant_enabled: bool,
    user_rows: Seq<AssignmentView>,
    role_rows: Seq<AssignmentView>,
    tenant_rows: Seq<AssignmentView>,
    grants: Seq<GrantView>,
    from_role: bool,
    i: int,
)
    requires
        !explicit_deny(user_rows, system.id),
        from_role ==> 0 <= i < role_rows.len() && role_rows[i].system_id == system.id,
        !from_role ==> 0 <= i < user_rows.len() && user_rows[i].system_id == system.id,
    ensures
        ({
            let c = expected_context(system, tenant_enabled, user_rows, role_rows, tenant_rows, grants);
            let a = if from_role { role_rows[i] } else { user_rows[i] };
            &&& a.visible ==> c.visible
            &&& a.accessible && system.status == SystemStatus::Active && tenant_enabled ==> c.accessible
        }),
{
    let srcs = system_sources(system.id, tenant_enabled, user_rows, role_rows, tenant_rows, grants);
    let us = assignment_sources(user_rows, system.id, "direct"@, "直接授权"@);
    let rs = assignment_sources(role_rows, system.id, "role"@, "角色授权"@);
    let ts = if tenant_enabled {
        assignment_sources(tenant_rows, system.id, "tenant"@, "租户默认"@)
    } else {
        Seq::empty()
    };
    let gs = grant_sources(grants, system.id);
    assert(srcs == us + rs + ts + gs);
    if from_role {
        lemma_assignment_sources_contain(role_rows, system.id, "role"@, "角色授权"@, i);
        let s = assignment_source(role_rows[i], "role"@, "角色授权"@);
        let k = choose|k: int| 0 <= k < rs.len() && rs[k] == s;
        assert(srcs[us.len() + k] == s);
    } else {
        lemma_assignment_sources_contain(user_rows, system.id, "direct"@, "直接授权"@, i);
        let s = assignment_source(user_rows[i], "direct"@, "直接授权"@);
        let k = choose|k: int| 0 <= k < us.len() && us[k] == s;
        assert(srcs[k] == s);
    }
}

/// Without an explicit revocation, a sub-administrator grant makes the user a
/// sub-administrator of the system with the generic `admin` role and the role of the
/// grant's level; the system is visible, and enterable while it is active and the
/// tenant has it enabled.
pub proof fn law_sub_admin_grant(
    system: SystemView,
    tenant_enabled: bool,
    user_rows: Seq<AssignmentView>,
    role_rows: Seq<AssignmentView>,
    tenant_rows: Seq<AssignmentView>,
    grants: Seq<GrantView>,
    i: int,
)
    requires
        !explicit_deny(user_rows, system.id),
        0 <= i < grants.len(),
        grants[i].system_id == system.id,
    ensures
        ({
            let c = expected_context(system, tenant_enabled, user_rows, role_rows, tenant_rows, grants);
            &&& c.is_sub_admin
            &&& c.admin_type.is_some()
            &&& c.visible
            &&& system.status == SystemStatus::Active && tenant_enabled ==> c.accessible
            &&& c.system_roles.contains("admin"@)
            &&& c.system_roles.contains(admin_role_spec(grants[i].admin_type))
        }),
{
    let srcs = system_sources(system.id, tenant_enabled, user_rows, role_rows, tenant_rows, grants);
    let us = assignment_sources(user_rows, system.id, "direct"@, "直接授权"@);
    let rs = assignment_sources(role_rows, system.id, "role"@, "角色授权"@);
    let ts = if tenant_enabled {
        assignment_sources(tenant_rows, system.id, "tenant"@, "租户默认"@)
    } else {
        Seq::empty()
    };
    let gs = grant_sources(grants, system.id);
    assert(srcs == us + rs + ts + gs);
    lemma_grant_sources_contain(grants, system.id, i);
    let s = grant_source(grants[i]);
    let k = choose|k: int| 0 <= k < gs.len() && gs[k] == s;
    assert(srcs[us.len() + rs.len() + ts.len() + k] == s);
    assert(srcs.contains(s));
    assert(contributed_roles(s) == seq!["admin"@] + seq![admin_role_spec(grants[i].admin_type)]);
    assert(contributed_roles(s)[0] == "admin"@);
    assert(contributed_roles(s)[1] == admin_role_spec(grants[i].admin_type));
    lemma_all_roles_contain(srcs, s, "admin"@);
    lemma_all_roles_contain(srcs, s, admin_role_spec(grants[i].admin_type));
    lemma_insert_all_contents(Seq::empty(), all_roles(srcs));
}

/// Roles and permissions are merged without repetition and scopes are merged by their
/// type and code together; a role is held exactly when some counted grant contributes
/// it.
pub proof fn law_merge_without_repetition(
    system: SystemView,
    tenant_enabled: bool,
    user_rows: Seq<AssignmentView>,
    role_rows: Seq<AssignmentView>,
    tenant_rows: Seq<AssignmentView>,
    grants: Seq<GrantView>,
)
    ensures
        ({
            let c = expected_context(system, tenant_enabled, user_rows, role_rows, tenant_rows, grants);
            let srcs = system_sources(system.id, tenant_enabled, user_rows, role_rows, tenant_rows, grants);
            &&& c.system_roles.no_duplicates()
            &&& c.permissions.no_duplicates()
            &&& distinct_keys(c.admin_scopes)
            &&& forall|x: Seq<char>| c.system_roles.contains(x) <==> all_roles(srcs).contains(x)
            &&& forall|x: Seq<char>| c.permissions.contains(x) <==> all_permissions(srcs).contains(x)
        }),
{
    let srcs = system_sources(system.id, tenant_enabled, user_rows, role_rows, tenant_rows, grants);
    lemma_insert_all_contents(Seq::empty(), all_roles(srcs));
    lemma_insert_all_contents(Seq::empty(), all_permissions(srcs));
    lemma_upsert_all_distinct(Seq::<ScopeView>::empty(), crate::permissions::all_scopes(srcs));
}

/// The identity shown follows the highest administrator role held.
pub proof fn law_identity_follows_highest_role(
    system: SystemView,
    tenant_enabled: bool,
    user_rows: Seq<AssignmentView>,
    role_rows: Seq<AssignmentView>,
    tenant_rows: Seq<AssignmentView>,
    grants: Seq<GrantView>,
)
    ensures
        ({
            let c = expected_context(system, tenant_enabled, user_rows, role_rows, tenant_rows, grants);
            &&& c.identity_label == identity_label_spec(c.system_roles, c.admin_scopes.len() > 0)
            &&& c.system_roles.contains("super-admin"@) ==> c.identity_label == "超级管理员"@
        }),
{
}

/// A user who is not an active member of an active tenant has no context at all there.
pub proof fn law_inactive_membership_sees_nothing(inp: PermissionInputs)
    requires
        !inp.membership_active,
    ensures
        expected_contexts(inp).len() == 0,
{
}

/// The listed contexts are exactly the visible ones, in order.
pub proof fn law_list_only_visible(cs: Seq<ContextView>)
    ensures
        forall|k: int| 0 <= k < visible_only(cs).len() ==> (#[trigger] visible_only(cs)[k]).visible,
        forall|i: int| 0 <= i < cs.len() && (#[trigger] cs[i]).visible ==> visible_only(cs).contains(cs[i]),
    decreases cs.len(),
{
    if cs.len() > 0 {
        law_list_only_visible(cs.drop_last());
        let prev = visible_only(cs.drop_last());
        assert forall|k: int| 0 <= k < visible_only(cs).len() implies (#[trigger] visible_only(cs)[k]).visible by {
            if cs.last().visible && k == prev.len() {
            } else {
                assert(visible_only(cs)[k] == prev[k]);
            }
        }
        assert forall|i: int| 0 <= i < cs.len() && (#[trigger] cs[i]).visible implies visible_only(cs).contains(cs[i]) by {
            if i == cs.len() - 1 {
                assert(prev.push(cs.last())[prev.len() as int] == cs[i]);
            } else {
                assert(cs.drop_last()[i] == cs[i]);
                let k = choose|k: int| 0 <= k < prev.len() && prev[k] == cs[i];
                if cs.last().visible {
                    assert(prev.push(cs.last())[k] == cs[i]);
                }
            }
        }
    }
}

/// A source is worth naming when it makes the system visible or grants
/// sub-administration.
pub open spec fn named_source(s: SourceView) -> bool {
    s.visible || s.source_type == "subadmin"@
}

proof fn lemma_summary_labels_contents(srcs: Seq<SourceView>, l: Seq<char>)
    ensures
        summary_labels(srcs).contains(l) <==> exists|k: int|
            0 <= k < srcs.len() && #[trigger] srcs[k].label == l && named_source(srcs[k]),
    decreases srcs.len(),
{
    if srcs.len() > 0 {
        let init = srcs.drop_last();
        lemma_summary_labels_contents(init, l);
        let prev = summary_labels(init);
        let last = srcs.last();
        if summary_labels(srcs).contains(l) {
            if named_source(last) {
                assert(summary_labels(srcs) == prev.push(last.label));
                let j = choose|j: int| 0 <= j < prev.push(last.label).len() && prev.push(last.label)[j] == l;
                if j == prev.len() {
                    assert(srcs[srcs.len() - 1].label == l);
                } else {
                    assert(prev[j] == l);
                    let k = choose|k: int| 0 <= k < init.len() && #[trigger] init[k].label == l && named_source(init[k]);
                    assert(srcs[k] == init[k]);
                }
            } else {
                let k = choose|k: int| 0 <= k < init.len() && #[trigger] init[k].label == l && named_source(init[k]);
                assert(srcs[k] == init[k]);
            }
        }
        if exists|k: int| 0 <= k < srcs.len() && #[trigger] srcs[k].label == l && named_source(srcs[k]) {
            let k = choose|k: int| 0 <= k < srcs.len() && #[trigger] srcs[k].label == l && named_source(srcs[k]);
            if k == srcs.len() - 1 {
                assert(summary_labels(srcs) == prev.push(last.label));
                assert(prev.push(last.label)[prev.len() as int] == l);
            } else {
                assert(init[k] == srcs[k]);
                assert(prev.contains(l));
                let j = choose|j: int| 0 <= j < prev.len() && prev[j] == l;
                if named_source(last) {
                    assert(summary_labels(srcs) == prev.push(last.label));
                    assert(prev.push(last.label)[j] == l);
                }
            }
        }
    }
}

/// The source summary names each source that makes the system visible, whatever it
/// says of entry, and each sub-administrator grant; it names nothing else, and each
/// label once.
pub proof fn law_source_summary_names_visible_sources(srcs: Seq<SourceView>)
    ensures
        forall|k: int|
            0 <= k < srcs.len() && (srcs[k].visible || srcs[k].source_type == "subadmin"@) ==> dedup(
                summary_labels(srcs),
            ).contains(#[trigger] srcs[k].label),
        forall|l: Seq<char>|
            #[trigger] dedup(summary_labels(srcs)).contains(l) ==> exists|k: int|
                0 <= k < srcs.len() && #[trigger] srcs[k].label == l && (srcs[k].visible || srcs[k].source_type
                    == "subadmin"@),
        dedup(summary_labels(srcs)).no_duplicates(),
{
    lemma_insert_all_contents(Seq::<Seq<char>>::empty(), summary_labels(srcs));
    assert forall|k: int|
        0 <= k < srcs.len() && (srcs[k].visible || srcs[k].source_type == "subadmin"@) implies dedup(
            summary_labels(srcs),
        ).contains(#[trigger] srcs[k].label) by {
        lemma_summary_labels_contents(srcs, srcs[k].label);
    }
    assert forall|l: Seq<char>| #[trigger] dedup(summary_labels(srcs)).contains(l) implies exists|k: int|
        0 <= k < srcs.len() && #[trigger] srcs[k].label == l && (srcs[k].visible || srcs[k].source_type
            == "subadmin"@) by {
        lemma_summary_labels_contents(srcs, l);
    }
}

/// An administrator level is read from its own name and from no other: a name gives a
/// level exactly when it is that level's name.
pub proof fn law_admin_type_by_name(name: Seq<char>, t: AdminType)
    ensures
        admin_type_from_name(name) == Some(t) <==> name == admin_type_name(t),
{
    reveal_strlit("system");
    reveal_strlit("tenant");
    reveal_strlit("module");
    reveal_strlit("resource");
    reveal_strlit("organization");
    assert("system"@[0] != "tenant"@[0] && "system"@[0] != "module"@[0] && "system"@[0] != "resource"@[0]);
    assert("system"@[0] != "organization"@[0] && "tenant"@[0] != "module"@[0] && "tenant"@[0] != "resource"@[0]);
    assert("tenant"@[0] != "organization"@[0] && "module"@[0] != "resource"@[0] && "module"@[0] != "organization"@[0]);
    assert("resource"@[0] != "organization"@[0]);
}

} // verus!
