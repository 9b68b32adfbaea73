//! Effective permission computation: how direct, role, tenant and
//! sub-administrator grants combine into what a user may see and enter in
//! each subsystem, within one tenant.

use vstd::prelude::*;
use crate::model::{Id, SystemStatus, AdminType, AdminScope, ScopeView, scope_key, scope_text, admin_type_name};
use crate::text::{dedup, insert_all, insert_unique, owned, string_of, concat, clone_strings, clone_opt, chars_of, chars_eq, text_eq, push_unique, push_all_unique, lemma_insert_all_concat};

verus! {

// ---------------------------------------------------------------------------
// Input rows
// ---------------------------------------------------------------------------

/// A subsystem as stored in the catalog.
#[derive(Debug)]
pub struct SystemRow {
    pub id: Id,
    pub code: String,
    pub name: String,
    pub description: Option<String>,
    pub category: Option<String>,
    pub icon_url: Option<String>,
    pub entry_url: String,
    pub status: SystemStatus,
}

/// One stored permission assignment (of a user, a role or a tenant) on a subsystem.
/// Its scopes are the ones decoded from the stored JSON (none where that fails).
#[derive(Debug)]
pub struct AssignmentRow {
    pub system_id: Id,
    pub visible: bool,
    pub accessible: bool,
    pub system_roles: Option<Vec<String>>,
    pub permissions: Option<Vec<String>>,
    pub scopes: Vec<AdminScope>,
}

/// One active sub-administrator grant on a subsystem.
#[derive(Debug)]
pub struct GrantRow {
    pub system_id: Id,
    pub admin_type: AdminType,
    pub scopes: Vec<AdminScope>,
}

/// Abstract value of an assignment; absent role and permission lists count as empty.
pub struct AssignmentView {
    pub system_id: Id,
    pub visible: bool,
    pub accessible: bool,
    pub system_roles: Seq<Seq<char>>,
    pub permissions: Seq<Seq<char>>,
    pub scopes: Seq<ScopeView>,
}

/// Abstract value of a sub-administrator grant.
pub struct GrantView {
    pub system_id: Id,
    pub admin_type: AdminType,
    pub scopes: Seq<ScopeView>,
}

pub open spec fn opt_strings(o: Option<Vec<String>>) -> Seq<Seq<char>> {
    match o {
        Some(v) => v.deep_view(),
        None => Seq::empty(),
    }
}

impl DeepView for AssignmentRow {
    type V = AssignmentView;

    open spec fn deep_view(&self) -> AssignmentView {
        AssignmentView {
            system_id: self.system_id,
            visible: self.visible,
            accessible: self.accessible,
            system_roles: opt_strings(self.system_roles),
            permissions: opt_strings(self.permissions),
            scopes: self.scopes.deep_view(),
        }
    }
}

impl DeepView for GrantRow {
    type V = GrantView;

    open spec fn deep_view(&self) -> GrantView {
        GrantView {
            system_id: self.system_id,
            admin_type: self.admin_type,
            scopes: self.scopes.deep_view(),
        }
    }
}

// ---------------------------------------------------------------------------
// Output records
// ---------------------------------------------------------------------------

/// One grant that contributed to a user's effective permissions on a subsystem.
#[derive(Debug)]
pub struct PermissionSource {
    pub source_type: String,
    pub label: String,
    pub visible: bool,
    pub accessible: bool,
    pub system_roles: Vec<String>,
    pub permissions: Vec<String>,
    pub admin_scopes: Vec<AdminScope>,
}

/// Abstract value of a permission source.
pub struct SourceView {
    pub source_type: Seq<char>,
    pub label: Seq<char>,
    pub visible: bool,
    pub accessible: bool,
    pub system_roles: Seq<Seq<char>>,
    pub permissions: Seq<Seq<char>>,
    pub admin_scopes: Seq<ScopeView>,
}

impl DeepView for PermissionSource {
    type V = SourceView;

    open spec fn deep_view(&self) -> SourceView {
        SourceView {
            source_type: self.source_type@,
            label: self.label@,
            visible: self.visible,
            accessible: self.accessible,
            system_roles: self.system_roles.deep_view(),
            permissions: self.permissions.deep_view(),
            admin_scopes: self.admin_scopes.deep_view(),
        }
    }
}

/// What a user may see and do in one subsystem, within one tenant.
#[derive(Debug)]
pub struct EffectiveSystemContext {
    pub system_id: Id,
    pub system_code: String,
    pub name: String,
    pub description: Option<String>,
    pub icon_url: Option<String>,
    pub entry_url: String,
    pub category: Option<String>,
    pub status: SystemStatus,
    pub visible: bool,
    pub accessible: bool,
    pub system_roles: Vec<String>,
    pub permissions: Vec<String>,
    pub admin_scopes: Vec<AdminScope>,
    pub identity_label: String,
    pub is_sub_admin: bool,
    pub admin_type: Option<String>,
}

/// An effective context together with the grants it was computed from.
#[derive(Debug)]
pub struct PermissionDetails {
    pub context: EffectiveSystemContext,
    pub sources: Vec<PermissionSource>,
    pub source_summary: Vec<String>,
    pub scope_summary: Vec<String>,
}

// ---------------------------------------------------------------------------
// Specification
// ---------------------------------------------------------------------------

/// The portal role that a sub-administrator level confers in the subsystem.
pub open spec fn admin_role_spec(t: AdminType) -> Seq<char> {
    match t {
        AdminType::System => "super-admin"@,
        AdminType::Tenant => "tenant-admin"@,
        AdminType::Module => "module-admin"@,
        AdminType::Resource | AdminType::Organization => "admin"@,
    }
}

/// The display label of a sub-administrator level.
pub open spec fn admin_label_spec(t: AdminType) -> Seq<char> {
    match t {
        AdminType::System => "系统级"@,
        AdminType::Tenant => "租户级"@,
        AdminType::Module => "模块级"@,
        AdminType::Resource => "资源级"@,
        AdminType::Organization => "组织级"@,
    }
}

/// The identity shown for a set of subsystem roles: the highest administrator
/// level present, a module administrator wherever any scope is held, else an ordinary user.
pub open spec fn identity_label_spec(roles: Seq<Seq<char>>, has_scopes: bool) -> Seq<char> {
    if roles.contains("super-admin"@) {
        "超级管理员"@
    } else if roles.contains("tenant-admin"@) {
        "租户管理员"@
    } else if roles.contains("module-admin"@) || has_scopes {
        "模块管理员"@
    } else if roles.contains("admin"@) {
        "管理员"@
    } else {
        "普通用户"@
    }
}

/// The source recorded for one assignment.
pub open spec fn assignment_source(a: AssignmentView, source_type: Seq<char>, label: Seq<char>) -> SourceView {
    SourceView {
        source_type: source_type,
        label: label,
        visible: a.visible,
        accessible: a.accessible,
        system_roles: a.system_roles,
        permissions: a.permissions,
        admin_scopes: a.scopes,
    }
}

/// The sources recorded for the assignments of `rows` on system `id`, in row order.
pub open spec fn assignment_sources(
    rows: Seq<AssignmentView>,
    id: Id,
    source_type: Seq<char>,
    label: Seq<char>,
) -> Seq<SourceView>
    decreases rows.len(),
{
    if rows.len() == 0 {
        Seq::empty()
    } else {
        let prev = assignment_sources(rows.drop_last(), id, source_type, label);
        if rows.last().system_id == id {
            prev.push(assignment_source(rows.last(), source_type, label))
        } else {
            prev
        }
    }
}

/// The source recorded for one sub-administrator grant.
pub open spec fn grant_source(g: GrantView) -> SourceView {
    SourceView {
        source_type: "subadmin"@,
        label: "子管理员："@ + admin_label_spec(g.admin_type),
        visible: true,
        accessible: true,
        system_roles: seq![admin_role_spec(g.admin_type)],
        permissions: Seq::empty(),
        admin_scopes: g.scopes,
    }
}

/// The sources recorded for the grants of `grants` on system `id`, in row order.
pub open spec fn grant_sources(grants: Seq<GrantView>, id: Id) -> Seq<SourceView>
    decreases grants.len(),
{
    if grants.len() == 0 {
        Seq::empty()
    } else {
        let prev = grant_sources(grants.drop_last(), id);
        if grants.last().system_id == id {
            prev.push(grant_source(grants.last()))
        } else {
            prev
        }
    }
}

/// The level of the last grant on system `id`, if any.
pub open spec fn last_grant_type(grants: Seq<GrantView>, id: Id) -> Option<AdminType>
    decreases grants.len(),
{
    if grants.len() == 0 {
        None
    } else if grants.last().system_id == id {
        Some(grants.last().admin_type)
    } else {
        last_grant_type(grants.drop_last(), id)
    }
}

/// A direct assignment of the user hides system `id`: an explicit revocation,
/// which overrides every other grant on that system.
pub open spec fn explicit_deny(user_rows: Seq<AssignmentView>, id: Id) -> bool {
    exists|i: int| 0 <= i < user_rows.len() && user_rows[i].system_id == id && !user_rows[i].visible
}

/// The grants that count for system `id`: none under an explicit revocation; otherwise
/// direct, role and (where the tenant has the system enabled) tenant assignments, then
/// sub-administrator grants.
pub open spec fn system_sources(
    id: Id,
    tenant_enabled: bool,
    user_rows: Seq<AssignmentView>,
    role_rows: Seq<AssignmentView>,
    tenant_rows: Seq<AssignmentView>,
    grants: Seq<GrantView>,
) -> Seq<SourceView> {
    if explicit_deny(user_rows, id) {
        Seq::empty()
    } else {
        assignment_sources(user_rows, id, "direct"@, "直接授权"@)
            + assignment_sources(role_rows, id, "role"@, "角色授权"@)
            + (if tenant_enabled {
            assignment_sources(tenant_rows, id, "tenant"@, "租户默认"@)
        } else {
            Seq::empty()
        }) + grant_sources(grants, id)
    }
}

/// The subsystem roles a source contributes: a sub-administrator grant also confers `admin`.
pub open spec fn contributed_roles(s: SourceView) -> Seq<Seq<char>> {
    if s.source_type == "subadmin"@ {
        seq!["admin"@] + s.system_roles
    } else {
        s.system_roles
    }
}

/// All roles contributed by `srcs`, in order, with repetitions.
pub open spec fn all_roles(srcs: Seq<SourceView>) -> Seq<Seq<char>>
    decreases srcs.len(),
{
    if srcs.len() == 0 {
        Seq::empty()
    } else {
        all_roles(srcs.drop_last()) + contributed_roles(srcs.last())
    }
}

/// All permissions of `srcs`, in order, with repetitions.
pub open spec fn all_permissions(srcs: Seq<SourceView>) -> Seq<Seq<char>>
    decreases srcs.len(),
{
    if srcs.len() == 0 {
        Seq::empty()
    } else {
        all_permissions(srcs.drop_last()) + srcs.last().permissions
    }
}

/// All scopes of `srcs`, in order, with repetitions.
pub open spec fn all_scopes(srcs: Seq<SourceView>) -> Seq<ScopeView>
    decreases srcs.len(),
{
    if srcs.len() == 0 {
        Seq::empty()
    } else {
        all_scopes(srcs.drop_last()) + srcs.last().admin_scopes
    }
}

/// The first position of a scope with key `k` (type and code) in `xs`, or -1.
pub open spec fn key_index(xs: Seq<ScopeView>, k: (Seq<char>, Seq<char>)) -> int
    decreases xs.len(),
{
    if xs.len() == 0 {
        -1
    } else {
        let i = key_index(xs.drop_last(), k);
        if i >= 0 {
            i
        } else if scope_key(xs.last()) == k {
            xs.len() - 1
        } else {
            -1
        }
    }
}

/// `xs` with `s` replacing the scope of the same key, or appended where there is none.
pub open spec fn scope_upsert(xs: Seq<ScopeView>, s: ScopeView) -> Seq<ScopeView> {
    let i = key_index(xs, scope_key(s));
    if i >= 0 {
        xs.update(i, s)
    } else {
        xs.push(s)
    }
}

/// Upserts every scope of `ys`, in order, into `xs`.
pub open spec fn upsert_all(xs: Seq<ScopeView>, ys: Seq<ScopeView>) -> Seq<ScopeView>
    decreases ys.len(),
{
    if ys.len() == 0 {
        xs
    } else {
        scope_upsert(upsert_all(xs, ys.drop_last()), ys.last())
    }
}

/// Some source makes the system visible.
pub open spec fn any_visible(srcs: Seq<SourceView>) -> bool {
    exists|i: int| 0 <= i < srcs.len() && srcs[i].visible
}

/// Some source lets the user enter the system.
pub open spec fn any_accessible(srcs: Seq<SourceView>) -> bool {
    exists|i: int| 0 <= i < srcs.len() && srcs[i].accessible
}

/// The view of an optional string.
pub open spec fn opt_view(o: Option<String>) -> Option<Seq<char>> {
    match o {
        Some(s) => Some(s@),
        None => None,
    }
}

/// Abstract value of a subsystem row.
pub struct SystemView {
    pub id: Id,
    pub code: Seq<char>,
    pub name: Seq<char>,
    pub description: Option<Seq<char>>,
    pub category: Option<Seq<char>>,
    pub icon_url: Option<Seq<char>>,
    pub entry_url: Seq<char>,
    pub status: SystemStatus,
}

impl DeepView for SystemRow {
    type V = SystemView;

    open spec fn deep_view(&self) -> SystemView {
        SystemView {
            id: self.id,
            code: self.code@,
            name: self.name@,
            description: opt_view(self.description),
            category: opt_view(self.category),
            icon_url: opt_view(self.icon_url),
            entry_url: self.entry_url@,
            status: self.status,
        }
    }
}

/// Abstract value of an effective context.
pub struct ContextView {
    pub system_id: Id,
    pub system_code: Seq<char>,
    pub name: Seq<char>,
    pub description: Option<Seq<char>>,
    pub icon_url: Option<Seq<char>>,
    pub entry_url: Seq<char>,
    pub category: Option<Seq<char>>,
    pub status: SystemStatus,
    pub visible: bool,
    pub accessible: bool,
    pub system_roles: Seq<Seq<char>>,
    pub permissions: Seq<Seq<char>>,
    pub admin_scopes: Seq<ScopeView>,
    pub identity_label: Seq<char>,
    pub is_sub_admin: bool,
    pub admin_type: Option<Seq<char>>,
}

impl DeepView for EffectiveSystemContext {
    type V = ContextView;

    open spec fn deep_view(&self) -> ContextView {
        ContextView {
            system_id: self.system_id,
            system_code: self.system_code@,
            name: self.name@,
            description: opt_view(self.description),
            icon_url: opt_view(self.icon_url),
            entry_url: self.entry_url@,
            category: opt_view(self.category),
            status: self.status,
            visible: self.visible,
            accessible: self.accessible,
            system_roles: self.system_roles.deep_view(),
            permissions: self.permissions.deep_view(),
            admin_scopes: self.admin_scopes.deep_view(),
            identity_label: self.identity_label@,
            is_sub_admin: self.is_sub_admin,
            admin_type: opt_view(self.admin_type),
        }
    }
}

/// The effective context of `system` for the given rows, where `tenant_enabled` says
/// whether the tenant has the system enabled:
/// - it is visible when some counted grant makes it visible, and always while the
///   system is under maintenance;
/// - it can be entered when some counted grant allows it, the system is active and the
///   tenant has it enabled;
/// - roles and permissions are the distinct ones of the counted grants, scopes are
///   told apart by their type and code together;
/// - a sub-administrator grant makes the user a sub-administrator of the level of the
///   last such grant.
pub open spec fn expected_context(
    system: SystemView,
    tenant_enabled: bool,
    user_rows: Seq<AssignmentView>,
    role_rows: Seq<AssignmentView>,
    tenant_rows: Seq<AssignmentView>,
    grants: Seq<GrantView>,
) -> ContextView {
    let srcs = system_sources(system.id, tenant_enabled, user_rows, role_rows, tenant_rows, grants);
    let deny = explicit_deny(user_rows, system.id);
    let roles = dedup(all_roles(srcs));
    let scopes = upsert_all(Seq::empty(), all_scopes(srcs));
    let sub_admin = !deny && last_grant_type(grants, system.id).is_some();
    ContextView {
        system_id: system.id,
        system_code: system.code,
        name: system.name,
        description: system.description,
        icon_url: system.icon_url,
        entry_url: system.entry_url,
        category: system.category,
        status: system.status,
        visible: any_visible(srcs) || system.status == SystemStatus::Maintenance,
        accessible: any_accessible(srcs) && system.status == SystemStatus::Active && tenant_enabled,
        system_roles: roles,
        permissions: dedup(all_permissions(srcs)),
        admin_scopes: scopes,
        identity_label: identity_label_spec(roles, scopes.len() > 0),
        is_sub_admin: sub_admin,
        admin_type: if sub_admin {
            Some(admin_type_name(last_grant_type(grants, system.id).unwrap()))
        } else {
            None
        },
    }
}

// ---------------------------------------------------------------------------
// Proofs about the specification
// ---------------------------------------------------------------------------

/// How the accumulated quantities grow when one source is appended.
pub proof fn lemma_sources_push(srcs: Seq<SourceView>, x: SourceView)
    ensures
        all_roles(srcs.push(x)) == all_roles(srcs) + contributed_roles(x),
        all_permissions(srcs.push(x)) == all_permissions(srcs) + x.permissions,
        all_scopes(srcs.push(x)) == all_scopes(srcs) + x.admin_scopes,
        any_visible(srcs.push(x)) == (any_visible(srcs) || x.visible),
        any_accessible(srcs.push(x)) == (any_accessible(srcs) || x.accessible),
{
    assert(srcs.push(x).drop_last() =~= srcs);
    let p = srcs.push(x);
    if any_visible(srcs) {
        let i = choose|i: int| 0 <= i < srcs.len() && srcs[i].visible;
        assert(p[i].visible);
    }
    if x.visible {
        assert(p[srcs.len() as int].visible);
    }
    if any_visible(p) {
        let i = choose|i: int| 0 <= i < p.len() && p[i].visible;
        if i < srcs.len() {
            assert(srcs[i].visible);
        }
    }
    if any_accessible(srcs) {
        let i = choose|i: int| 0 <= i < srcs.len() && srcs[i].accessible;
        assert(p[i].accessible);
    }
    if x.accessible {
        assert(p[srcs.len() as int].accessible);
    }
    if any_accessible(p) {
        let i = choose|i: int| 0 <= i < p.len() && p[i].accessible;
        if i < srcs.len() {
            assert(srcs[i].accessible);
        }
    }
}

/// Upserting a concatenation is upserting its two parts in turn.
pub proof fn lemma_upsert_all_concat(xs: Seq<ScopeView>, a: Seq<ScopeView>, b: Seq<ScopeView>)
    ensures
        upsert_all(xs, a + b) == upsert_all(upsert_all(xs, a), b),
    decreases b.len(),
{
    if b.len() == 0 {
        assert(a + b =~= a);
    } else {
        assert((a + b).drop_last() =~= a + b.drop_last());
        assert((a + b).last() == b.last());
        lemma_upsert_all_concat(xs, a, b.drop_last());
    }
}

/// `key_index` finds the first scope with the key, and -1 exactly when there is none.
pub proof fn lemma_key_index(xs: Seq<ScopeView>, k: (Seq<char>, Seq<char>))
    ensures
        -1 <= key_index(xs, k) < xs.len(),
        key_index(xs, k) == -1 ==> forall|j: int| 0 <= j < xs.len() ==> scope_key(#[trigger] xs[j]) != k,
        key_index(xs, k) >= 0 ==> scope_key(xs[key_index(xs, k)]) == k,
        key_index(xs, k) >= 0 ==> forall|j: int| 0 <= j < key_index(xs, k) ==> scope_key(#[trigger] xs[j]) != k,
    decreases xs.len(),
{
    if xs.len() > 0 {
        lemma_key_index(xs.drop_last(), k);
        assert forall|j: int| 0 <= j < xs.len() - 1 implies xs[j] == xs.drop_last()[j] by {}
    }
}

/// Upserting the scopes of a list with a key already present keeps the keys distinct.
pub open spec fn distinct_keys(xs: Seq<ScopeView>) -> bool {
    forall|i: int, j: int| 0 <= i < j < xs.len() ==> scope_key(#[trigger] xs[i]) != scope_key(#[trigger] xs[j])
}

/// Upserts keep scope keys distinct.
pub proof fn lemma_upsert_all_distinct(xs: Seq<ScopeView>, ys: Seq<ScopeView>)
    requires
        distinct_keys(xs),
    ensures
        distinct_keys(upsert_all(xs, ys)),
    decreases ys.len(),
{
    if ys.len() > 0 {
        lemma_upsert_all_distinct(xs, ys.drop_last());
        let prev = upsert_all(xs, ys.drop_last());
        let s = ys.last();
        lemma_key_index(prev, scope_key(s));
        let r = scope_upsert(prev, s);
        if key_index(prev, scope_key(s)) >= 0 {
            let ki = key_index(prev, scope_key(s));
            assert forall|i: int, j: int| 0 <= i < j < r.len() implies scope_key(#[trigger] r[i]) != scope_key(#[trigger] r[j]) by {
                if i == ki {
                    assert(scope_key(prev[ki]) == scope_key(s));
                    assert(scope_key(prev[i]) != scope_key(prev[j]));
                } else if j == ki {
                    assert(scope_key(prev[ki]) == scope_key(s));
                    assert(scope_key(prev[i]) != scope_key(prev[j]));
                } else {
                    assert(scope_key(prev[i]) != scope_key(prev[j]));
                }
            }
        } else {
            assert forall|i: int, j: int| 0 <= i < j < r.len() implies scope_key(#[trigger] r[i]) != scope_key(#[trigger] r[j]) by {
                if j == prev.len() {
                    assert(scope_key(prev[i]) != scope_key(s));
                } else {
                    assert(scope_key(prev[i]) != scope_key(prev[j]));
                }
            }
        }
    }
}

// ---------------------------------------------------------------------------
// Executable computation
// ---------------------------------------------------------------------------

/// The portal role conferred by a sub-administrator level.
pub fn admin_type_to_role(admin_type: &AdminType) -> (r: String)
    ensures
        r@ == admin_role_spec(*admin_type),
{
    match admin_type {
        AdminType::System => owned("super-admin"),
        AdminType::Tenant => owned("tenant-admin"),
        AdminType::Module => owned("module-admin"),
        AdminType::Resource | AdminType::Organization => owned("admin"),
    }
}

/// The display label of a sub-administrator level.
pub fn admin_type_label(admin_type: &AdminType) -> (r: String)
    ensures
        r@ == admin_label_spec(*admin_type),
{
    match admin_type {
        AdminType::System => owned("系统级"),
        AdminType::Tenant => owned("租户级"),
        AdminType::Module => owned("模块级"),
        AdminType::Resource => owned("资源级"),
        AdminType::Organization => owned("组织级"),
    }
}

/// Whether `v` holds a string equal to `s`.
pub fn strings_contain(v: &Vec<String>, s: &str) -> (r: bool)
    ensures
        r == v.deep_view().contains(s@),
{
    let mut i: usize = 0;
    while i < v.len()
        invariant
            i <= v.len(),
            forall|j: int| 0 <= j < i ==> v.deep_view()[j] != s@,
        decreases v.len() - i,
    {
        if text_eq(v[i].as_str(), s) {
            assert(v.deep_view()[i as int] == s@);
            return true;
        }
        i = i + 1;
    }
    false
}

/// The identity shown for the given subsystem roles and scopes.
pub fn derive_identity_label(system_roles: &Vec<String>, admin_scopes: &Vec<AdminScope>) -> (r: String)
    ensures
        r@ == identity_label_spec(system_roles.deep_view(), admin_scopes.len() > 0),
{
    if strings_contain(system_roles, "super-admin") {
        owned("超级管理员")
    } else if strings_contain(system_roles, "tenant-admin") {
        owned("租户管理员")
    } else if strings_contain(system_roles, "module-admin") || admin_scopes.len() > 0 {
        owned("模块管理员")
    } else if strings_contain(system_roles, "admin") {
        owned("管理员")
    } else {
        owned("普通用户")
    }
}

/// A copy of a list of scopes.
pub fn clone_scopes(v: &Vec<AdminScope>) -> (r: Vec<AdminScope>)
    ensures
        r.deep_view() == v.deep_view(),
{
    let mut r: Vec<AdminScope> = Vec::new();
    let mut i: usize = 0;
    while i < v.len()
        invariant
            i <= v.len(),
            r.deep_view() == v.deep_view().take(i as int),
        decreases v.len() - i,
    {
        let ghost prev = r.deep_view();
        let x = v[i].duplicate();
        r.push(x);
        assert(r.deep_view() =~= prev.push(x.deep_view()));
        assert(r.deep_view() =~= v.deep_view().take(i + 1));
        i = i + 1;
    }
    assert(v.deep_view().take(v.len() as int) =~= v.deep_view());
    r
}

/// The characters of the text `type:code` of a scope.
fn scope_text_chars(s: &AdminScope) -> (v: Vec<char>)
    ensures
        v@ == scope_text(s.deep_view()),
{
    proof {
        reveal_strlit(":");
    }
    let mut v = chars_of(s.scope_type.as_str());
    v.push(':');
    let mut c = chars_of(s.scope_code.as_str());
    v.append(&mut c);
    assert(v@ =~= scope_text(s.deep_view()));
    v
}

/// Whether two scopes have the same type and the same code.
fn same_scope(a: &AdminScope, b: &AdminScope) -> (r: bool)
    ensures
        r == (scope_key(a.deep_view()) == scope_key(b.deep_view())),
{
    text_eq(a.scope_type.as_str(), b.scope_type.as_str()) && text_eq(a.scope_code.as_str(), b.scope_code.as_str())
}

/// Replaces the scope with the key of `s`, or appends `s` where there is none.
pub fn upsert_scope(v: &mut Vec<AdminScope>, s: AdminScope)
    ensures
        final(v).deep_view() == scope_upsert(old(v).deep_view(), s.deep_view()),
{
    let ghost old_v = v.deep_view();
    let ghost key = scope_key(s.deep_view());
    proof {
        lemma_key_index(old_v, key);
    }
    let mut i: usize = 0;
    while i < v.len()
        invariant
            i <= v.len(),
            v.deep_view() == old_v,
            old_v == old(v).deep_view(),
            key == scope_key(s.deep_view()),
            forall|j: int| 0 <= j < i ==> scope_key(#[trigger] old_v[j]) != key,
        decreases v.len() - i,
    {
        if same_scope(&v[i], &s) {
            assert(scope_key(old_v[i as int]) == key);
            proof {
                lemma_key_index(old_v, key);
                let ki = key_index(old_v, key);
                if ki == -1 {
                    assert(scope_key(old_v[i as int]) != key);
                } else if ki < i {
                    assert(scope_key(old_v[ki]) != key);
                } else if ki > i {
                    assert(scope_key(old_v[i as int]) != key);
                }
                assert(ki == i);
                assert(scope_upsert(old_v, s.deep_view()) == old_v.update(i as int, s.deep_view()));
            }
            let ghost sv = s.deep_view();
            v.set(i, s);
            assert(v.deep_view() =~= old_v.update(i as int, sv));
            return;
        }
        i = i + 1;
    }
    proof {
        let ki = key_index(old_v, key);
        if ki >= 0 {
            assert(scope_key(old_v[ki]) != key);
        }
    }
    let ghost sv = s.deep_view();
    v.push(s);
    assert(v.deep_view() =~= old_v.push(sv));
}

/// Upserts every scope of `xs`, in order.
pub fn upsert_scopes(v: &mut Vec<AdminScope>, xs: &Vec<AdminScope>)
    ensures
        final(v).deep_view() == upsert_all(old(v).deep_view(), xs.deep_view()),
{
    let ghost start = v.deep_view();
    let mut i: usize = 0;
    while i < xs.len()
        invariant
            i <= xs.len(),
            v.deep_view() == upsert_all(start, xs.deep_view().take(i as int)),
        decreases xs.len() - i,
    {
        let x = xs[i].duplicate();
        upsert_scope(v, x);
        assert(xs.deep_view().take(i + 1).drop_last() =~= xs.deep_view().take(i as int));
        i = i + 1;
    }
    assert(xs.deep_view().take(xs.len() as int) =~= xs.deep_view());
}

/// What has been gathered from the sources seen so far.
struct Tally {
    visible: bool,
    accessible: bool,
    roles: Vec<String>,
    permissions: Vec<String>,
    scopes: Vec<AdminScope>,
    sources: Vec<PermissionSource>,
}

spec fn tally_matches(t: Tally, srcs: Seq<SourceView>) -> bool {
    &&& t.sources.deep_view() == srcs
    &&& t.visible == any_visible(srcs)
    &&& t.accessible == any_accessible(srcs)
    &&& t.roles.deep_view() == dedup(all_roles(srcs))
    &&& t.permissions.deep_view() == dedup(all_permissions(srcs))
    &&& t.scopes.deep_view() == upsert_all(Seq::empty(), all_scopes(srcs))
}

fn empty_tally() -> (t: Tally)
    ensures
        tally_matches(t, Seq::empty()),
{
    let t = Tally {
        visible: false,
        accessible: false,
        roles: Vec::new(),
        permissions: Vec::new(),
        scopes: Vec::new(),
        sources: Vec::new(),
    };
    assert(t.sources.deep_view() =~= Seq::<SourceView>::empty());
    assert(t.roles.deep_view() =~= Seq::<Seq<char>>::empty());
    assert(t.permissions.deep_view() =~= Seq::<Seq<char>>::empty());
    assert(t.scopes.deep_view() =~= Seq::<ScopeView>::empty());
    t
}

/// Takes one source into account.
fn absorb(t: &mut Tally, src: PermissionSource)
    requires
        tally_matches(*old(t), old(t).sources.deep_view()),
    ensures
        tally_matches(*final(t), old(t).sources.deep_view().push(src.deep_view())),
{
    let ghost srcs = t.sources.deep_view();
    let ghost x = src.deep_view();
    proof {
        lemma_sources_push(srcs, x);
        lemma_insert_all_concat(Seq::empty(), all_roles(srcs), contributed_roles(x));
        lemma_insert_all_concat(Seq::empty(), all_permissions(srcs), x.permissions);
        lemma_upsert_all_concat(Seq::empty(), all_scopes(srcs), x.admin_scopes);
    }
    t.visible = t.visible || src.visible;
    t.accessible = t.accessible || src.accessible;
    if text_eq(src.source_type.as_str(), "subadmin") {
        let ghost before = t.roles.deep_view();
        push_unique(&mut t.roles, owned("admin"));
        push_all_unique(&mut t.roles, &src.system_roles);
        proof {
            lemma_insert_all_concat(before, seq!["admin"@], x.system_roles);
            assert(seq!["admin"@].drop_last() =~= Seq::<Seq<char>>::empty());
            assert(insert_all(before, Seq::<Seq<char>>::empty()) == before);
            assert(insert_all(before, seq!["admin"@]) == insert_unique(before, "admin"@));
        }
    } else {
        push_all_unique(&mut t.roles, &src.system_roles);
    }
    push_all_unique(&mut t.permissions, &src.permissions);
    upsert_scopes(&mut t.scopes, &src.admin_scopes);
    t.sources.push(src);
    assert(t.sources.deep_view() =~= srcs.push(x));
}

fn assignment_to_source(a: &AssignmentRow, source_type: &str, label: &str) -> (r: PermissionSource)
    ensures
        r.deep_view() == assignment_source(a.deep_view(), source_type@, label@),
{
    let system_roles = match &a.system_roles {
        Some(v) => clone_strings(v),
        None => Vec::new(),
    };
    let permissions = match &a.permissions {
        Some(v) => clone_strings(v),
        None => Vec::new(),
    };
    let r = PermissionSource {
        source_type: owned(source_type),
        label: owned(label),
        visible: a.visible,
        accessible: a.accessible,
        system_roles,
        permissions,
        admin_scopes: clone_scopes(&a.scopes),
    };
    assert(r.system_roles.deep_view() =~= opt_strings(a.system_roles));
    assert(r.permissions.deep_view() =~= opt_strings(a.permissions));
    r
}

/// Takes into account the assignments of `rows` on system `id`, in order.
fn absorb_assignments(t: &mut Tally, rows: &Vec<AssignmentRow>, id: Id, source_type: &str, label: &str)
    requires
        tally_matches(*old(t), old(t).sources.deep_view()),
    ensures
        tally_matches(
            *final(t),
            old(t).sources.deep_view() + assignment_sources(rows.deep_view(), id, source_type@, label@),
        ),
{
    let ghost start = t.sources.deep_view();
    let mut i: usize = 0;
    while i < rows.len()
        invariant
            i <= rows.len(),
            tally_matches(*t, t.sources.deep_view()),
            t.sources.deep_view() == start + assignment_sources(
                rows.deep_view().take(i as int),
                id,
                source_type@,
                label@,
            ),
        decreases rows.len() - i,
    {
        let ghost prefix = rows.deep_view().take(i as int);
        assert(rows.deep_view().take(i + 1).drop_last() =~= prefix);
        assert(rows.deep_view().take(i + 1).last() == rows.deep_view()[i as int]);
        if rows[i].system_id == id {
            let src = assignment_to_source(&rows[i], source_type, label);
            absorb(t, src);
            assert(start + assignment_sources(prefix, id, source_type@, label@).push(
                assignment_source(rows.deep_view()[i as int], source_type@, label@),
            ) =~= (start + assignment_sources(prefix, id, source_type@, label@)).push(
                assignment_source(rows.deep_view()[i as int], source_type@, label@),
            ));
        }
        i = i + 1;
    }
    assert(rows.deep_view().take(rows.len() as int) =~= rows.deep_view());
}

fn grant_to_source(g: &GrantRow) -> (r: PermissionSource)
    ensures
        r.deep_view() == grant_source(g.deep_view()),
{
    let role = admin_type_to_role(&g.admin_type);
    let mut roles: Vec<String> = Vec::new();
    roles.push(role);
    let label_part = admin_type_label(&g.admin_type);
    let r = PermissionSource {
        source_type: owned("subadmin"),
        label: concat("子管理员：", label_part.as_str()),
        visible: true,
        accessible: true,
        system_roles: roles,
        permissions: Vec::new(),
        admin_scopes: clone_scopes(&g.scopes),
    };
    assert(r.system_roles.deep_view() =~= seq![admin_role_spec(g.admin_type)]);
    assert(r.permissions.deep_view() =~= Seq::<Seq<char>>::empty());
    r
}

/// Takes into account the sub-administrator grants on system `id`, in order.
fn absorb_grants(t: &mut Tally, grants: &Vec<GrantRow>, id: Id)
    requires
        tally_matches(*old(t), old(t).sources.deep_view()),
    ensures
        tally_matches(*final(t), old(t).sources.deep_view() + grant_sources(grants.deep_view(), id)),
{
    let ghost start = t.sources.deep_view();
    let mut i: usize = 0;
    while i < grants.len()
        invariant
            i <= grants.len(),
            tally_matches(*t, t.sources.deep_view()),
            t.sources.deep_view() == start + grant_sources(grants.deep_view().take(i as int), id),
        decreases grants.len() - i,
    {
        let ghost prefix = grants.deep_view().take(i as int);
        assert(grants.deep_view().take(i + 1).drop_last() =~= prefix);
        assert(grants.deep_view().take(i + 1).last() == grants.deep_view()[i as int]);
        if grants[i].system_id == id {
            let src = grant_to_source(&grants[i]);
            absorb(t, src);
            assert(start + grant_sources(prefix, id).push(grant_source(grants.deep_view()[i as int]))
                =~= (start + grant_sources(prefix, id)).push(grant_source(grants.deep_view()[i as int])));
        }
        i = i + 1;
    }
    assert(grants.deep_view().take(grants.len() as int) =~= grants.deep_view());
}

/// The level of the last grant on system `id`, if any.
fn last_grant(grants: &Vec<GrantRow>, id: Id) -> (r: Option<AdminType>)
    ensures
        r == last_grant_type(grants.deep_view(), id),
{
    let mut r: Option<AdminType> = None;
    let mut i: usize = 0;
    while i < grants.len()
        invariant
            i <= grants.len(),
            r == last_grant_type(grants.deep_view().take(i as int), id),
        decreases grants.len() - i,
    {
        assert(grants.deep_view().take(i + 1).drop_last() =~= grants.deep_view().take(i as int));
        assert(grants.deep_view().take(i + 1).last() == grants.deep_view()[i as int]);
        if grants[i].system_id == id {
            r = Some(grants[i].admin_type);
        }
        i = i + 1;
    }
    assert(grants.deep_view().take(grants.len() as int) =~= grants.deep_view());
    r
}

/// Whether a direct assignment of the user hides system `id`.
fn has_explicit_deny(user_rows: &Vec<AssignmentRow>, id: Id) -> (r: bool)
    ensures
        r == explicit_deny(user_rows.deep_view(), id),
{
    let mut i: usize = 0;
    while i < user_rows.len()
        invariant
            i <= user_rows.len(),
            forall|j: int| 0 <= j < i ==> !(user_rows.deep_view()[j].system_id == id && !user_rows.deep_view()[j].visible),
        decreases user_rows.len() - i,
    {
        if user_rows[i].system_id == id && !user_rows[i].visible {
            assert(user_rows.deep_view()[i as int].system_id == id);
            return true;
        }
        i = i + 1;
    }
    false
}

/// The effective context of one system for one user within one tenant, and the grants
/// it was computed from.
pub fn compute_system_context(
    system: &SystemRow,
    tenant_enabled: bool,
    user_rows: &Vec<AssignmentRow>,
    role_rows: &Vec<AssignmentRow>,
    tenant_rows: &Vec<AssignmentRow>,
    grants: &Vec<GrantRow>,
) -> (r: (EffectiveSystemContext, Vec<PermissionSource>))
    ensures
        r.0.deep_view() == expected_context(
            system.deep_view(),
            tenant_enabled,
            user_rows.deep_view(),
            role_rows.deep_view(),
            tenant_rows.deep_view(),
            grants.deep_view(),
        ),
        r.1.deep_view() == system_sources(
            system.id,
            tenant_enabled,
            user_rows.deep_view(),
            role_rows.deep_view(),
            tenant_rows.deep_view(),
            grants.deep_view(),
        ),
{
    let id = system.id;
    let deny = has_explicit_deny(user_rows, id);
    let mut t = empty_tally();
    let mut admin_type: Option<String> = None;
    let mut is_sub_admin = false;
    if !deny {
        absorb_assignments(&mut t, user_rows, id, "direct", "直接授权");
        absorb_assignments(&mut t, role_rows, id, "role", "角色授权");
        if tenant_enabled {
            absorb_assignments(&mut t, tenant_rows, id, "tenant", "租户默认");
        } else {
            assert(t.sources.deep_view() =~= t.sources.deep_view() + Seq::<SourceView>::empty());
        }
        absorb_grants(&mut t, grants, id);
        match last_grant(grants, id) {
            Some(at) => {
                is_sub_admin = true;
                admin_type = Some(owned(at.as_str()));
            },
            None => {},
        }
        assert(t.sources.deep_view() =~= system_sources(
            id,
            tenant_enabled,
            user_rows.deep_view(),
            role_rows.deep_view(),
            tenant_rows.deep_view(),
            grants.deep_view(),
        ));
    }
    let mut visible = t.visible;
    let mut accessible = t.accessible;
    if system.status != SystemStatus::Active || !tenant_enabled {
        accessible = false;
    }
    if system.status == SystemStatus::Maintenance {
        visible = true;
        accessible = false;
    }
    let identity_label = derive_identity_label(&t.roles, &t.scopes);
    let ctx = EffectiveSystemContext {
        system_id: id,
        system_code: system.code.clone(),
        name: system.name.clone(),
        description: clone_opt(&system.description),
        icon_url: clone_opt(&system.icon_url),
        entry_url: system.entry_url.clone(),
        category: clone_opt(&system.category),
        status: system.status,
        visible,
        accessible,
        system_roles: t.roles,
        permissions: t.permissions,
        admin_scopes: t.scopes,
        identity_label,
        is_sub_admin,
        admin_type,
    };
    (ctx, t.sources)
}


// ---------------------------------------------------------------------------
// Whole computation over one user and one tenant
// ---------------------------------------------------------------------------

/// Everything the computation reads for one user within one tenant: whether the user
/// is an active member of an active tenant, the catalog's live subsystems, the tenant's
/// enabled flags per subsystem, the user's direct assignments, the assignments of the
/// user's roles, the tenant's default assignments and the user's current sub-administrator grants.
#[derive(Debug)]
pub struct PermissionInputs {
    pub membership_active: bool,
    pub systems: Vec<SystemRow>,
    pub tenant_systems: Vec<(Id, bool)>,
    pub user_assignments: Vec<AssignmentRow>,
    pub role_assignments: Vec<AssignmentRow>,
    pub tenant_assignments: Vec<AssignmentRow>,
    pub sub_admin_grants: Vec<GrantRow>,
}

/// Whether the tenant has system `id` enabled: the flag of the last entry for it, else no.
pub open spec fn tenant_enabled_spec(rows: Seq<(Id, bool)>, id: Id) -> bool
    decreases rows.len(),
{
    if rows.len() == 0 {
        false
    } else if rows.last().0 == id {
        rows.last().1
    } else {
        tenant_enabled_spec(rows.drop_last(), id)
    }
}

/// The grants that count for the `i`-th system of `inp`.
pub open spec fn expected_sources(inp: PermissionInputs, i: int) -> Seq<SourceView> {
    system_sources(
        inp.systems[i].id,
        tenant_enabled_spec(inp.tenant_systems@, inp.systems[i].id),
        inp.user_assignments.deep_view(),
        inp.role_assignments.deep_view(),
        inp.tenant_assignments.deep_view(),
        inp.sub_admin_grants.deep_view(),
    )
}

/// The effective contexts of all systems of `inp`, in catalog order; none when the
/// user is not an active member of an active tenant.
pub open spec fn expected_contexts(inp: PermissionInputs) -> Seq<ContextView> {
    if !inp.membership_active {
        Seq::empty()
    } else {
        Seq::new(
            inp.systems.len() as nat,
            |i: int|
                expected_context(
                    inp.systems.deep_view()[i],
                    tenant_enabled_spec(inp.tenant_systems@, inp.systems[i].id),
                    inp.user_assignments.deep_view(),
                    inp.role_assignments.deep_view(),
                    inp.tenant_assignments.deep_view(),
                    inp.sub_admin_grants.deep_view(),
                ),
        )
    }
}

/// The contexts of `cs` that are visible, in order.
pub open spec fn visible_only(cs: Seq<ContextView>) -> Seq<ContextView>
    decreases cs.len(),
{
    if cs.len() == 0 {
        Seq::empty()
    } else if cs.last().visible {
        visible_only(cs.drop_last()).push(cs.last())
    } else {
        visible_only(cs.drop_last())
    }
}

/// The result of the computation: one context per system, and the grants behind each,
/// keyed by system.
#[derive(Debug)]
pub struct Computation {
    pub contexts: Vec<EffectiveSystemContext>,
    pub sources: Vec<(Id, Vec<PermissionSource>)>,
}

/// Whether the tenant has system `id` enabled.
fn tenant_enabled(rows: &Vec<(Id, bool)>, id: Id) -> (r: bool)
    ensures
        r == tenant_enabled_spec(rows@, id),
{
    let mut r = false;
    let mut i: usize = 0;
    while i < rows.len()
        invariant
            i <= rows.len(),
            r == tenant_enabled_spec(rows@.take(i as int), id),
        decreases rows.len() - i,
    {
        assert(rows@.take(i + 1).drop_last() =~= rows@.take(i as int));
        assert(rows@.take(i + 1).last() == rows@[i as int]);
        if rows[i].0 == id {
            r = rows[i].1;
        }
        i = i + 1;
    }
    assert(rows@.take(rows.len() as int) =~= rows@);
    r
}

/// Computes the effective context of every system of `inp` for its user and tenant.
pub fn compute_effective(inp: &PermissionInputs) -> (r: Computation)
    ensures
        r.contexts.deep_view() == expected_contexts(*inp),
        r.sources.len() == r.contexts.len(),
        forall|i: int|
            0 <= i < r.sources.len() ==> (#[trigger] r.sources[i]).0 == inp.systems[i].id
                && r.sources[i].1.deep_view() == expected_sources(*inp, i),
{
    let mut contexts: Vec<EffectiveSystemContext> = Vec::new();
    let mut sources: Vec<(Id, Vec<PermissionSource>)> = Vec::new();
    if !inp.membership_active {
        assert(contexts.deep_view() =~= expected_contexts(*inp));
        return Computation { contexts, sources };
    }
    let mut i: usize = 0;
    while i < inp.systems.len()
        invariant
            inp.membership_active,
            i <= inp.systems.len(),
            contexts.len() == i,
            sources.len() == i,
            forall|j: int| 0 <= j < i ==> (#[trigger] contexts.deep_view()[j]) == expected_contexts(*inp)[j],
            forall|j: int|
                0 <= j < i ==> (#[trigger] sources[j]).0 == inp.systems[j].id
                    && sources[j].1.deep_view() == expected_sources(*inp, j),
        decreases inp.systems.len() - i,
    {
        let system = &inp.systems[i];
        let enabled = tenant_enabled(&inp.tenant_systems, system.id);
        let (ctx, srcs) = compute_system_context(
            system,
            enabled,
            &inp.user_assignments,
            &inp.role_assignments,
            &inp.tenant_assignments,
            &inp.sub_admin_grants,
        );
        assert(inp.systems.deep_view()[i as int] == system.deep_view());
        assert(ctx.deep_view() == expected_contexts(*inp)[i as int]);
        let ghost prev = contexts.deep_view();
        let ghost cv = ctx.deep_view();
        contexts.push(ctx);
        assert(contexts.deep_view() =~= prev.push(cv));
        sources.push((system.id, srcs));
        i = i + 1;
    }
    assert(contexts.deep_view() =~= expected_contexts(*inp));
    Computation { contexts, sources }
}

/// The visible contexts of `c`, in order.
fn visible_contexts(c: Vec<EffectiveSystemContext>) -> (r: Vec<EffectiveSystemContext>)
    ensures
        r.deep_view() == visible_only(c.deep_view()),
{
    let ghost all = c.deep_view();
    let mut out: Vec<EffectiveSystemContext> = Vec::new();
    let mut rest = c;
    let mut k: usize = 0;
    let n = rest.len();
    proof {
        assert(all.take(0) =~= Seq::<ContextView>::empty());
    }
    while rest.len() > 0
        invariant
            k + rest.len() == n,
            n == all.len(),
            rest.deep_view() == all.skip(k as int),
            out.deep_view() == visible_only(all.take(k as int)),
        decreases rest.len(),
    {
        let ghost before = rest.deep_view();
        let ctx = rest.remove(0);
        assert(before[0] == ctx.deep_view());
        assert(rest.deep_view() =~= before.drop_first());
        assert(all.take(k + 1).drop_last() =~= all.take(k as int));
        assert(all.skip(k as int)[0] == all[k as int]);
        assert(all.take(k + 1).last() == all[k as int]);
        assert(rest.deep_view() =~= all.skip(k + 1));
        if ctx.visible {
            let ghost prev = out.deep_view();
            out.push(ctx);
            assert(out.deep_view() =~= prev.push(all[k as int]));
        }
        k = k + 1;
    }
    assert(all.take(n as int) =~= all);
    out
}

/// The contexts that the user can see, in catalog order.
pub fn list_effective_contexts(inp: &PermissionInputs) -> (r: Vec<EffectiveSystemContext>)
    ensures
        r.deep_view() == visible_only(expected_contexts(*inp)),
{
    let c = compute_effective(inp);
    visible_contexts(c.contexts)
}

/// The context of the first system of `inp`, if there is one; `inp` is meant to hold
/// the single system asked about.
pub fn get_effective_context(inp: &PermissionInputs) -> (r: Option<EffectiveSystemContext>)
    ensures
        match r {
            Some(c) => expected_contexts(*inp).len() > 0 && c.deep_view() == expected_contexts(*inp)[0],
            None => expected_contexts(*inp).len() == 0,
        },
{
    let mut c = compute_effective(inp);
    if c.contexts.len() == 0 {
        None
    } else {
        let ghost all = c.contexts.deep_view();
        let first = c.contexts.remove(0);
        assert(all[0] == first.deep_view());
        Some(first)
    }
}


// ---------------------------------------------------------------------------
// Explanations
// ---------------------------------------------------------------------------

/// The labels of the sources worth naming: those that make the system visible and
/// every sub-administrator grant, in order, with repetitions.
pub open spec fn summary_labels(srcs: Seq<SourceView>) -> Seq<Seq<char>>
    decreases srcs.len(),
{
    if srcs.len() == 0 {
        Seq::empty()
    } else if srcs.last().visible || srcs.last().source_type == "subadmin"@ {
        summary_labels(srcs.drop_last()).push(srcs.last().label)
    } else {
        summary_labels(srcs.drop_last())
    }
}

/// The texts `type:code` of the scopes of `scopes`, in order.
pub open spec fn scope_keys(scopes: Seq<ScopeView>) -> Seq<Seq<char>> {
    scopes.map_values(|s: ScopeView| scope_text(s))
}

/// The keys of all scopes of `srcs`, in order, with repetitions.
pub open spec fn scope_labels(srcs: Seq<SourceView>) -> Seq<Seq<char>>
    decreases srcs.len(),
{
    if srcs.len() == 0 {
        Seq::empty()
    } else {
        scope_labels(srcs.drop_last()) + scope_keys(srcs.last().admin_scopes)
    }
}

/// The distinct labels of the sources that make the system visible or grant
/// sub-administration.
pub fn build_source_summary(sources: &Vec<PermissionSource>) -> (r: Vec<String>)
    ensures
        r.deep_view() == dedup(summary_labels(sources.deep_view())),
{
    let mut r: Vec<String> = Vec::new();
    let mut i: usize = 0;
    assert(r.deep_view() =~= Seq::<Seq<char>>::empty());
    while i < sources.len()
        invariant
            i <= sources.len(),
            r.deep_view() == dedup(summary_labels(sources.deep_view().take(i as int))),
        decreases sources.len() - i,
    {
        let ghost pre = sources.deep_view().take(i as int);
        assert(sources.deep_view().take(i + 1).drop_last() =~= pre);
        assert(sources.deep_view().take(i + 1).last() == sources.deep_view()[i as int]);
        let s = &sources[i];
        if s.visible || text_eq(s.source_type.as_str(), "subadmin") {
            let l = s.label.clone();
            assert(summary_labels(pre).push(l@).drop_last() =~= summary_labels(pre));
            push_unique(&mut r, l);
        }
        i = i + 1;
    }
    assert(sources.deep_view().take(sources.len() as int) =~= sources.deep_view());
    r
}

/// The text `type:code` under which a scope is shown.
pub fn scope_label(s: &AdminScope) -> (r: String)
    ensures
        r@ == scope_text(s.deep_view()),
{
    let cs = scope_text_chars(s);
    string_of(cs.as_slice())
}

/// The distinct keys of all scopes that the sources grant.
pub fn build_scope_summary(sources: &Vec<PermissionSource>) -> (r: Vec<String>)
    ensures
        r.deep_view() == dedup(scope_labels(sources.deep_view())),
{
    let mut r: Vec<String> = Vec::new();
    let mut i: usize = 0;
    assert(r.deep_view() =~= Seq::<Seq<char>>::empty());
    while i < sources.len()
        invariant
            i <= sources.len(),
            r.deep_view() == dedup(scope_labels(sources.deep_view().take(i as int))),
        decreases sources.len() - i,
    {
        let ghost pre = sources.deep_view().take(i as int);
        assert(sources.deep_view().take(i + 1).drop_last() =~= pre);
        assert(sources.deep_view().take(i + 1).last() == sources.deep_view()[i as int]);
        let scopes = &sources[i].admin_scopes;
        let ghost keys = scope_keys(scopes.deep_view());
        let ghost start = r.deep_view();
        let mut j: usize = 0;
        while j < scopes.len()
            invariant
                j <= scopes.len(),
                keys == scope_keys(scopes.deep_view()),
                r.deep_view() == insert_all(start, keys.take(j as int)),
            decreases scopes.len() - j,
        {
            let label = scope_label(&scopes[j]);
            push_unique(&mut r, label);
            assert(keys.take(j + 1).drop_last() =~= keys.take(j as int));
            assert(keys.take(j + 1).last() == keys[j as int]);
            j = j + 1;
        }
        assert(keys.take(scopes.len() as int) =~= keys);
        proof {
            lemma_insert_all_concat(Seq::empty(), scope_labels(pre), keys);
        }
        i = i + 1;
    }
    assert(sources.deep_view().take(sources.len() as int) =~= sources.deep_view());
    r
}

/// The placeholder context for a system that the user has nothing on.
pub open spec fn empty_context_spec(system_id: Id, system_code: Seq<char>) -> ContextView {
    ContextView {
        system_id: system_id,
        system_code: system_code,
        name: Seq::empty(),
        description: None,
        icon_url: None,
        entry_url: Seq::empty(),
        category: None,
        status: SystemStatus::Disabled,
        visible: false,
        accessible: false,
        system_roles: Seq::empty(),
        permissions: Seq::empty(),
        admin_scopes: Seq::empty(),
        identity_label: Seq::empty(),
        is_sub_admin: false,
        admin_type: None,
    }
}

/// The placeholder context for a system that the user has nothing on.
pub fn empty_context(system_id: Id, system_code: String) -> (r: EffectiveSystemContext)
    ensures
        r.deep_view() == empty_context_spec(system_id, system_code@),
{
    let r = EffectiveSystemContext {
        system_id,
        system_code,
        name: String::new(),
        description: None,
        icon_url: None,
        entry_url: String::new(),
        category: None,
        status: SystemStatus::Disabled,
        visible: false,
        accessible: false,
        system_roles: Vec::new(),
        permissions: Vec::new(),
        admin_scopes: Vec::new(),
        identity_label: String::new(),
        is_sub_admin: false,
        admin_type: None,
    };
    assert(r.system_roles.deep_view() =~= Seq::<Seq<char>>::empty());
    assert(r.permissions.deep_view() =~= Seq::<Seq<char>>::empty());
    assert(r.admin_scopes.deep_view() =~= Seq::<ScopeView>::empty());
    r
}

/// The grants behind the last of the first `n` systems of `inp` whose id is `id`; none
/// where there is no such system.
pub open spec fn sources_for(inp: PermissionInputs, id: Id, n: int) -> Seq<SourceView>
    decreases n,
{
    if n <= 0 {
        Seq::empty()
    } else if inp.systems[n - 1].id == id {
        expected_sources(inp, n - 1)
    } else {
        sources_for(inp, id, n - 1)
    }
}

/// The context of the last system of `inp` with the grants behind system `system_id`
/// and their summaries; a placeholder with no grants where there is no context.
pub fn get_permission_details(inp: &PermissionInputs, system_id: Id) -> (r: PermissionDetails)
    ensures
        expected_contexts(*inp).len() == 0 ==> {
            &&& r.context.deep_view() == empty_context_spec(system_id, Seq::empty())
            &&& r.sources.len() == 0
            &&& r.source_summary.len() == 0
            &&& r.scope_summary.len() == 0
        },
        expected_contexts(*inp).len() > 0 ==> {
            &&& r.context.deep_view() == expected_contexts(*inp).last()
            &&& r.sources.deep_view() == sources_for(*inp, system_id, inp.systems.len() as int)
            &&& r.source_summary.deep_view() == dedup(summary_labels(r.sources.deep_view()))
            &&& r.scope_summary.deep_view() == dedup(scope_labels(r.sources.deep_view()))
        },
{
    let mut c = compute_effective(inp);
    if c.contexts.len() == 0 {
        return PermissionDetails {
            context: empty_context(system_id, String::new()),
            sources: Vec::new(),
            source_summary: Vec::new(),
            scope_summary: Vec::new(),
        };
    }
    let ghost all = c.contexts.deep_view();
    let context = c.contexts.pop().unwrap();
    assert(context.deep_view() == all.last());
    let mut found: Option<usize> = None;
    let mut i: usize = 0;
    while i < c.sources.len()
        invariant
            i <= c.sources.len(),
            c.sources.len() == inp.systems.len(),
            inp.membership_active,
            forall|j: int|
                0 <= j < c.sources.len() ==> (#[trigger] c.sources[j]).0 == inp.systems[j].id
                    && c.sources[j].1.deep_view() == expected_sources(*inp, j),
            match found {
                Some(k) => k < i && sources_for(*inp, system_id, i as int) == expected_sources(*inp, k as int),
                None => sources_for(*inp, system_id, i as int) == Seq::<SourceView>::empty(),
            },
        decreases c.sources.len() - i,
    {
        if c.sources[i].0 == system_id {
            found = Some(i);
        }
        i = i + 1;
    }
    let mut sources: Vec<PermissionSource> = Vec::new();
    match found {
        Some(k) => {
            let entry = c.sources.remove(k);
            sources = entry.1;
        },
        None => {
            assert(sources.deep_view() =~= Seq::<SourceView>::empty());
        },
    }
    let source_summary = build_source_summary(&sources);
    let scope_summary = build_scope_summary(&sources);
    PermissionDetails { context, sources, source_summary, scope_summary }
}


// ---------------------------------------------------------------------------
// What the portal hands to its pages
// ---------------------------------------------------------------------------

/// The access of a user to one subsystem, as the portal pages use it.
#[derive(Debug)]
pub struct SystemAccess {
    pub system_id: Id,
    pub system_code: String,
    pub name: String,
    pub description: Option<String>,
    pub icon_url: Option<String>,
    pub entry_url: String,
    pub category: Option<String>,
    pub status: SystemStatus,
    pub visible: bool,
    pub accessible: bool,
    pub system_roles: Vec<String>,
    pub permissions: Vec<String>,
    pub scopes: Vec<AdminScope>,
    pub identity_label: String,
    pub is_sub_admin: bool,
    pub admin_type: Option<AdminType>,
}

/// The administrator level named `name`, if there is one.
pub open spec fn admin_type_from_name(name: Seq<char>) -> Option<AdminType> {
    if name == "system"@ {
        Some(AdminType::System)
    } else if name == "tenant"@ {
        Some(AdminType::Tenant)
    } else if name == "module"@ {
        Some(AdminType::Module)
    } else if name == "resource"@ {
        Some(AdminType::Resource)
    } else if name == "organization"@ {
        Some(AdminType::Organization)
    } else {
        None
    }
}

/// The administrator level named `name`, if there is one.
pub fn parse_admin_type(name: &str) -> (r: Option<AdminType>)
    ensures
        r == admin_type_from_name(name@),
{
    if text_eq(name, "system") {
        Some(AdminType::System)
    } else if text_eq(name, "tenant") {
        Some(AdminType::Tenant)
    } else if text_eq(name, "module") {
        Some(AdminType::Module)
    } else if text_eq(name, "resource") {
        Some(AdminType::Resource)
    } else if text_eq(name, "organization") {
        Some(AdminType::Organization)
    } else {
        None
    }
}

/// `a` carries the context `c` field by field, with the administrator level read back
/// from its name.
pub open spec fn access_matches(a: SystemAccess, c: ContextView) -> bool {
    &&& a.system_id == c.system_id
    &&& a.system_code@ == c.system_code
    &&& a.name@ == c.name
    &&& opt_view(a.description) == c.description
    &&& opt_view(a.icon_url) == c.icon_url
    &&& a.entry_url@ == c.entry_url
    &&& opt_view(a.category) == c.category
    &&& a.status == c.status
    &&& a.visible == c.visible
    &&& a.accessible == c.accessible
    &&& a.system_roles.deep_view() == c.system_roles
    &&& a.permissions.deep_view() == c.permissions
    &&& a.scopes.deep_view() == c.admin_scopes
    &&& a.identity_label@ == c.identity_label
    &&& a.is_sub_admin == c.is_sub_admin
    &&& a.admin_type == match c.admin_type {
        Some(n) => admin_type_from_name(n),
        None => None,
    }
}

/// The access that a context grants.
pub fn into_system_access(ctx: EffectiveSystemContext) -> (r: SystemAccess)
    ensures
        access_matches(r, ctx.deep_view()),
{
    let admin_type = match &ctx.admin_type {
        Some(s) => parse_admin_type(s.as_str()),
        None => None,
    };
    SystemAccess {
        system_id: ctx.system_id,
        system_code: ctx.system_code,
        name: ctx.name,
        description: ctx.description,
        icon_url: ctx.icon_url,
        entry_url: ctx.entry_url,
        category: ctx.category,
        status: ctx.status,
        visible: ctx.visible,
        accessible: ctx.accessible,
        system_roles: ctx.system_roles,
        permissions: ctx.permissions,
        scopes: ctx.admin_scopes,
        identity_label: ctx.identity_label,
        is_sub_admin: ctx.is_sub_admin,
        admin_type,
    }
}

/// The access of the user to every visible system, in catalog order.
pub fn list_user_system_access(inp: &PermissionInputs) -> (r: Vec<SystemAccess>)
    ensures
        r.len() == visible_only(expected_contexts(*inp)).len(),
        forall|k: int| 0 <= k < r.len() ==> access_matches(#[trigger] r[k], visible_only(expected_contexts(*inp))[k]),
{
    let mut cs = list_effective_contexts(inp);
    let ghost all = cs.deep_view();
    let mut out: Vec<SystemAccess> = Vec::new();
    let mut k: usize = 0;
    let n = cs.len();
    while cs.len() > 0
        invariant
            k + cs.len() == n,
            n == all.len(),
            cs.deep_view() == all.skip(k as int),
            out.len() == k,
            forall|j: int| 0 <= j < k ==> access_matches(#[trigger] out[j], all[j]),
        decreases cs.len(),
    {
        let ghost before = cs.deep_view();
        let c = cs.remove(0);
        assert(before[0] == c.deep_view());
        assert(cs.deep_view() =~= before.drop_first());
        assert(all.skip(k as int)[0] == all[k as int]);
        assert(cs.deep_view() =~= all.skip(k + 1));
        out.push(into_system_access(c));
        k = k + 1;
    }
    out
}

/// The access of the user to the system asked about, if the user has a context there.
pub fn get_user_system_access(inp: &PermissionInputs) -> (r: Option<SystemAccess>)
    ensures
        match r {
            Some(a) => expected_contexts(*inp).len() > 0 && access_matches(a, expected_contexts(*inp)[0]),
            None => expected_contexts(*inp).len() == 0,
        },
{
    match get_effective_context(inp) {
        Some(c) => Some(into_system_access(c)),
        None => None,
    }
}

/// The access shown for a subsystem where the user has no context in the tenant:
/// neither visible nor enterable, with nothing granted.
pub open spec fn no_access(a: SystemAccess, system_id: Id, code: Seq<char>, name: Seq<char>) -> bool {
    &&& a.system_id == system_id
    &&& a.system_code@ == code
    &&& a.name@ == name
    &&& a.description is None
    &&& a.icon_url is None
    &&& a.entry_url@ == Seq::<char>::empty()
    &&& a.category is None
    &&& a.status == SystemStatus::Active
    &&& !a.visible
    &&& !a.accessible
    &&& a.system_roles.len() == 0
    &&& a.permissions.len() == 0
    &&& a.scopes.len() == 0
    &&& a.identity_label@ == Seq::<char>::empty()
    &&& !a.is_sub_admin
    &&& a.admin_type is None
}

/// The access of the user to the subsystem `system_id` in the tenant of `inp`, whose
/// systems are that one alone: that of its context, or `no_access` where it has none.
pub fn effective_access(inp: &PermissionInputs, system_id: Id, code: &str, name: &str) -> (r: SystemAccess)
    ensures
        expected_contexts(*inp).len() > 0 ==> access_matches(r, expected_contexts(*inp)[0]),
        expected_contexts(*inp).len() == 0 ==> no_access(r, system_id, code@, name@),
{
    match get_user_system_access(inp) {
        Some(a) => a,
        None => {
            let entry = String::new();
            let label = String::new();
            SystemAccess {
                system_id,
                system_code: owned(code),
                name: owned(name),
                description: None,
                icon_url: None,
                entry_url: entry,
                category: None,
                status: SystemStatus::Active,
                visible: false,
                accessible: false,
                system_roles: Vec::new(),
                permissions: Vec::new(),
                scopes: Vec::new(),
                identity_label: label,
                is_sub_admin: false,
                admin_type: None,
            }
        },
    }
}

} // verus!
