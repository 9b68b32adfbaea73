//! The edit forms of the administration console: which columns a change request
//! touches, the UPDATE statement that applies it, and the values of a new record.

use vstd::prelude::*;
use crate::model::{
    Id, UserStatus, TenantStatus, RoleType, SystemStatus, AdminType, GrantStatus, AuthMode,
    user_status_name, tenant_status_name, role_type_name, system_status_name, admin_type_name,
    grant_status_name, auth_mode_name,
};
use crate::ids::id_text_spec;
use crate::sql::{
    assign, named, quoted, nullable, bool_text, present, lemma_present_push, lemma_present_contains, text_set, nullable_set, named_set, bool_set, int_set, update_sql,
    text_assignment, nullable_assignment, named_assignment, bool_assignment, int_assignment,
    assignment, named_value, quote, keep_present, update_statement,
};
use crate::text::{owned, trim, trim_str, signed_decimal, opt_trim, trim_option};

verus! {

/// `sets` followed by the update of the modification time.
pub open spec fn stamped(sets: Seq<Seq<char>>) -> Seq<Seq<char>> {
    sets.push("updated_at = NOW()"@)
}

/// Appends the update of the modification time.
fn stamp(sets: &mut Vec<String>)
    ensures
        final(sets).deep_view() == stamped(old(sets).deep_view()),
{
    let ghost before = sets.deep_view();
    sets.push(owned("updated_at = NOW()"));
    assert(sets.deep_view() =~= stamped(before));
}

// ---------------------------------------------------------------------------
// Users
// ---------------------------------------------------------------------------

/// The fields of an account that an administrator may change.
#[derive(Debug)]
pub struct UserChanges {
    pub display_name: Option<String>,
    pub email: Option<String>,
    pub phone: Option<String>,
    pub organization_path: Option<String>,
    pub status: Option<UserStatus>,
}

/// The stored name of a status, where one is given.
pub open spec fn opt_user_status(s: Option<UserStatus>) -> Option<Seq<char>> {
    match s {
        Some(x) => Some(user_status_name(x)),
        None => None,
    }
}

/// The assignments of an account change, in form order: the display name as given;
/// e-mail, phone and organization path trimmed, `NULL` where blank; the status.
pub open spec fn user_sets(c: UserChanges) -> Seq<Seq<char>> {
    present(
        seq![
            text_set("display_name"@, c.display_name.deep_view()),
            nullable_set("email"@, c.email.deep_view()),
            nullable_set("phone"@, c.phone.deep_view()),
            nullable_set("organization_path"@, c.organization_path.deep_view()),
            named_set("status"@, opt_user_status(c.status)),
        ],
    )
}

/// 1 where a value is given, 0 where not.
pub open spec fn given<T>(o: Option<T>) -> int {
    if o is Some {
        1
    } else {
        0
    }
}

/// Each field of an account change that is given is written to its own column, and
/// nothing else is: the assignments are `display_name = 'D'`, `email = E`, `phone = P`,
/// `organization_path = O` (the last three trimmed, `NULL` where blank) and
/// `status = 'S'`, one for each field given and none for a field left out.
pub proof fn law_user_change_writes_own_columns(c: UserChanges)
    ensures
        user_sets(c).len() == given(c.display_name) + given(c.email) + given(c.phone) + given(c.organization_path)
            + given(c.status),
        c.display_name matches Some(x) ==> user_sets(c).contains("display_name = "@ + quoted(x@)),
        c.email matches Some(x) ==> user_sets(c).contains("email = "@ + nullable(x@)),
        c.phone matches Some(x) ==> user_sets(c).contains("phone = "@ + nullable(x@)),
        c.organization_path matches Some(x) ==> user_sets(c).contains("organization_path = "@ + nullable(x@)),
        c.status matches Some(st) ==> user_sets(c).contains("status = '"@ + user_status_name(st) + "'"@),
{
    let items = seq![
        text_set("display_name"@, c.display_name.deep_view()),
        nullable_set("email"@, c.email.deep_view()),
        nullable_set("phone"@, c.phone.deep_view()),
        nullable_set("organization_path"@, c.organization_path.deep_view()),
        named_set("status"@, opt_user_status(c.status)),
    ];
    let e = Seq::<Option<Seq<char>>>::empty();
    assert(items =~= e.push(items[0]).push(items[1]).push(items[2]).push(items[3]).push(items[4]));
    lemma_present_push(e, items[0]);
    lemma_present_push(e.push(items[0]), items[1]);
    lemma_present_push(e.push(items[0]).push(items[1]), items[2]);
    lemma_present_push(e.push(items[0]).push(items[1]).push(items[2]), items[3]);
    lemma_present_push(e.push(items[0]).push(items[1]).push(items[2]).push(items[3]), items[4]);
    assert(present(e) =~= Seq::<Seq<char>>::empty());
    reveal_strlit("display_name");
    reveal_strlit("email");
    reveal_strlit("phone");
    reveal_strlit("organization_path");
    reveal_strlit("status");
    reveal_strlit(" = ");
    reveal_strlit("display_name = ");
    reveal_strlit("email = ");
    reveal_strlit("phone = ");
    reveal_strlit("organization_path = ");
    reveal_strlit("status = '");
    reveal_strlit("'");
    if let Some(x) = c.display_name {
        lemma_present_contains(items, 0);
        assert(items[0].unwrap() =~= "display_name = "@ + quoted(x@));
    }
    if let Some(x) = c.email {
        lemma_present_contains(items, 1);
        assert(items[1].unwrap() =~= "email = "@ + nullable(x@));
    }
    if let Some(x) = c.phone {
        lemma_present_contains(items, 2);
        assert(items[2].unwrap() =~= "phone = "@ + nullable(x@));
    }
    if let Some(x) = c.organization_path {
        lemma_present_contains(items, 3);
        assert(items[3].unwrap() =~= "organization_path = "@ + nullable(x@));
    }
    if let Some(st) = c.status {
        lemma_present_contains(items, 4);
        assert(items[4].unwrap() =~= "status = '"@ + user_status_name(st) + "'"@);
    }
}

/// The columns of an account that an update gives back.
pub open spec fn user_columns() -> Seq<char> {
    " RETURNING id, username, display_name, email, phone, avatar_url, organization_path, status, default_tenant_id, preferences, last_login_at, created_at, updated_at"@
}

/// The statement that applies an account change; none where nothing changes.
pub fn user_update_sql(user_id: Id, c: &UserChanges) -> (r: Option<String>)
    ensures
        user_sets(*c).len() == 0 ==> r is None,
        user_sets(*c).len() > 0 ==> (r matches Some(s) && s@ == update_sql(
            "portal_users"@,
            stamped(user_sets(*c)),
            "id"@,
            user_id,
            user_columns(),
        )),
{
    let status = match c.status {
        Some(s) => Some(s.as_str()),
        None => None,
    };
    let mut items: Vec<Option<String>> = Vec::new();
    items.push(text_assignment("display_name", &c.display_name));
    items.push(nullable_assignment("email", &c.email));
    items.push(nullable_assignment("phone", &c.phone));
    items.push(nullable_assignment("organization_path", &c.organization_path));
    items.push(named_assignment("status", status));
    assert(items.deep_view() =~= seq![
        text_set("display_name"@, c.display_name.deep_view()),
        nullable_set("email"@, c.email.deep_view()),
        nullable_set("phone"@, c.phone.deep_view()),
        nullable_set("organization_path"@, c.organization_path.deep_view()),
        named_set("status"@, opt_user_status(c.status)),
    ]);
    let mut sets = keep_present(&items);
    if sets.len() == 0 {
        return None;
    }
    stamp(&mut sets);
    Some(update_statement(
        "portal_users",
        &sets,
        "id",
        user_id,
        " RETURNING id, username, display_name, email, phone, avatar_url, organization_path, status, default_tenant_id, preferences, last_login_at, created_at, updated_at",
    ))
}

/// A change disables an account when it asks for `disabled` and the account is not
/// disabled yet; its sessions are then revoked and the change audited as such.
pub fn user_newly_disabled(requested: Option<UserStatus>, current: UserStatus) -> (r: bool)
    ensures
        r == (requested == Some(UserStatus::Disabled) && current != UserStatus::Disabled),
{
    match requested {
        Some(UserStatus::Disabled) => current != UserStatus::Disabled,
        _ => false,
    }
}

/// The audit action of an account change.
pub fn user_update_action(newly_disabled: bool) -> (r: &'static str)
    ensures
        r@ == (if newly_disabled { "user.disable"@ } else { "user.update"@ }),
{
    if newly_disabled {
        "user.disable"
    } else {
        "user.update"
    }
}

// ---------------------------------------------------------------------------
// Tenants
// ---------------------------------------------------------------------------

/// The fields of a tenant that an administrator may change.
#[derive(Debug)]
pub struct TenantChanges {
    pub name: Option<String>,
    pub description: Option<String>,
    pub status: Option<TenantStatus>,
}

/// The stored name of a status, where one is given.
pub open spec fn opt_tenant_status(s: Option<TenantStatus>) -> Option<Seq<char>> {
    match s {
        Some(x) => Some(tenant_status_name(x)),
        None => None,
    }
}

/// The assignments of a tenant change: the name as given, the description trimmed
/// (`NULL` where blank), the status.
pub open spec fn tenant_sets(c: TenantChanges) -> Seq<Seq<char>> {
    present(
        seq![
            text_set("name"@, c.name.deep_view()),
            nullable_set("description"@, c.description.deep_view()),
            named_set("status"@, opt_tenant_status(c.status)),
        ],
    )
}

/// Each field of a tenant change that is given is written to its own column: the name
/// as given, the description trimmed (`NULL` where blank), the status by its name.
pub proof fn law_tenant_change_writes_own_columns(c: TenantChanges)
    ensures
        c.name matches Some(x) ==> tenant_sets(c).contains(assign("name"@, quoted(x@))),
        c.description matches Some(x) ==> tenant_sets(c).contains(assign("description"@, nullable(x@))),
        c.status matches Some(st) ==> tenant_sets(c).contains(assign("status"@, named(tenant_status_name(st)))),
{
    let items = seq![
        text_set("name"@, c.name.deep_view()),
        nullable_set("description"@, c.description.deep_view()),
        named_set("status"@, opt_tenant_status(c.status)),
    ];
    if c.name is Some {
        lemma_present_contains(items, 0);
    }
    if c.description is Some {
        lemma_present_contains(items, 1);
    }
    if c.status is Some {
        lemma_present_contains(items, 2);
    }
}

/// The columns of a tenant that an update gives back.
pub open spec fn tenant_columns() -> Seq<char> {
    " RETURNING id, code, name, status, description, created_at, updated_at"@
}

/// The statement that applies a tenant change; none where nothing changes.
pub fn tenant_update_sql(tenant_id: Id, c: &TenantChanges) -> (r: Option<String>)
    ensures
        tenant_sets(*c).len() == 0 ==> r is None,
        tenant_sets(*c).len() > 0 ==> (r matches Some(s) && s@ == update_sql(
            "portal_tenants"@,
            stamped(tenant_sets(*c)),
            "id"@,
            tenant_id,
            tenant_columns(),
        )),
{
    let status = match c.status {
        Some(s) => Some(s.as_str()),
        None => None,
    };
    let mut items: Vec<Option<String>> = Vec::new();
    items.push(text_assignment("name", &c.name));
    items.push(nullable_assignment("description", &c.description));
    items.push(named_assignment("status", status));
    assert(items.deep_view() =~= seq![
        text_set("name"@, c.name.deep_view()),
        nullable_set("description"@, c.description.deep_view()),
        named_set("status"@, opt_tenant_status(c.status)),
    ]);
    let mut sets = keep_present(&items);
    if sets.len() == 0 {
        return None;
    }
    stamp(&mut sets);
    Some(update_statement(
        "portal_tenants",
        &sets,
        "id",
        tenant_id,
        " RETURNING id, code, name, status, description, created_at, updated_at",
    ))
}

/// A change disables a tenant when it asks for `disabled` and the tenant is not
/// disabled yet; the change is then audited as such.
pub fn tenant_newly_disabled(requested: Option<TenantStatus>, current: TenantStatus) -> (r: bool)
    ensures
        r == (requested == Some(TenantStatus::Disabled) && current != TenantStatus::Disabled),
{
    match requested {
        Some(TenantStatus::Disabled) => current != TenantStatus::Disabled,
        _ => false,
    }
}

/// The audit action of a tenant change.
pub fn tenant_update_action(newly_disabled: bool) -> (r: &'static str)
    ensures
        r@ == (if newly_disabled { "tenant.disable"@ } else { "tenant.update"@ }),
{
    if newly_disabled {
        "tenant.disable"
    } else {
        "tenant.update"
    }
}

// ---------------------------------------------------------------------------
// Roles
// ---------------------------------------------------------------------------

/// The fields of a role that an administrator may change.
#[derive(Debug)]
pub struct RoleChanges {
    pub name: Option<String>,
    pub description: Option<String>,
    pub role_type: Option<RoleType>,
}

/// The stored name of a role type, where one is given.
pub open spec fn opt_role_type(t: Option<RoleType>) -> Option<Seq<char>> {
    match t {
        Some(x) => Some(role_type_name(x)),
        None => None,
    }
}

/// The assignments of a role change: the name as given, the description trimmed
/// (`NULL` where blank), the role type.
pub open spec fn role_sets(c: RoleChanges) -> Seq<Seq<char>> {
    present(
        seq![
            text_set("name"@, c.name.deep_view()),
            nullable_set("description"@, c.description.deep_view()),
            named_set("role_type"@, opt_role_type(c.role_type)),
        ],
    )
}

/// Each field of a role change that is given is written to its own column: the name as
/// given, the description trimmed (`NULL` where blank), the role type by its name.
pub proof fn law_role_change_writes_own_columns(c: RoleChanges)
    ensures
        c.name matches Some(x) ==> role_sets(c).contains(assign("name"@, quoted(x@))),
        c.description matches Some(x) ==> role_sets(c).contains(assign("description"@, nullable(x@))),
        c.role_type matches Some(t) ==> role_sets(c).contains(assign("role_type"@, named(role_type_name(t)))),
{
    let items = seq![
        text_set("name"@, c.name.deep_view()),
        nullable_set("description"@, c.description.deep_view()),
        named_set("role_type"@, opt_role_type(c.role_type)),
    ];
    if c.name is Some {
        lemma_present_contains(items, 0);
    }
    if c.description is Some {
        lemma_present_contains(items, 1);
    }
    if c.role_type is Some {
        lemma_present_contains(items, 2);
    }
}

/// The columns of a role that an update gives back.
pub open spec fn role_columns() -> Seq<char> {
    " RETURNING id, code, name, role_type, description, is_builtin, created_at, updated_at"@
}

/// The statement that applies a role change; none where nothing changes.
pub fn role_update_sql(role_id: Id, c: &RoleChanges) -> (r: Option<String>)
    ensures
        role_sets(*c).len() == 0 ==> r is None,
        role_sets(*c).len() > 0 ==> (r matches Some(s) && s@ == update_sql(
            "portal_roles"@,
            stamped(role_sets(*c)),
            "id"@,
            role_id,
            role_columns(),
        )),
{
    let role_type = match c.role_type {
        Some(t) => Some(t.as_str()),
        None => None,
    };
    let mut items: Vec<Option<String>> = Vec::new();
    items.push(text_assignment("name", &c.name));
    items.push(nullable_assignment("description", &c.description));
    items.push(named_assignment("role_type", role_type));
    assert(items.deep_view() =~= seq![
        text_set("name"@, c.name.deep_view()),
        nullable_set("description"@, c.description.deep_view()),
        named_set("role_type"@, opt_role_type(c.role_type)),
    ]);
    let mut sets = keep_present(&items);
    if sets.len() == 0 {
        return None;
    }
    stamp(&mut sets);
    Some(update_statement(
        "portal_roles",
        &sets,
        "id",
        role_id,
        " RETURNING id, code, name, role_type, description, is_builtin, created_at, updated_at",
    ))
}

// ---------------------------------------------------------------------------
// Systems
// ---------------------------------------------------------------------------

/// The JSON text that `serde_json::to_string` writes for a list of strings, where it
/// writes one.
pub uninterp spec fn json_string_list(items: Seq<Seq<char>>) -> Option<Seq<char>>;

/// Serializes a list of strings with `serde_json::to_string`; the text is named by
/// `json_string_list`.
#[verifier::external_body]
fn strings_to_json(items: &Vec<String>) -> (r: Option<String>)
    ensures
        r.deep_view() == json_string_list(items.deep_view()),
{
    serde_json::to_string(items).ok()
}

/// The JSON text of a list of strings, `[]` where none is written.
pub open spec fn list_json(items: Seq<Seq<char>>) -> Seq<char> {
    match json_string_list(items) {
        Some(t) => t,
        None => "[]"@,
    }
}

/// The JSON text of a list, where one is given.
pub open spec fn opt_list_json(o: Option<Seq<Seq<char>>>) -> Option<Seq<char>> {
    match o {
        Some(items) => Some(list_json(items)),
        None => None,
    }
}

/// The JSON text of a list of strings.
pub fn string_list_json(items: &Vec<String>) -> (r: String)
    ensures
        r@ == list_json(items.deep_view()),
{
    match strings_to_json(items) {
        Some(t) => t,
        None => owned("[]"),
    }
}

fn opt_list_text(o: &Option<Vec<String>>) -> (r: Option<String>)
    ensures
        r.deep_view() == opt_list_json(o.deep_view()),
{
    match o {
        Some(items) => Some(string_list_json(items)),
        None => None,
    }
}

/// The fields of a subsystem that an administrator may change. The supported scopes
/// are given as the JSON text of their list.
#[derive(Debug)]
pub struct SystemChanges {
    pub name: Option<String>,
    pub description: Option<String>,
    pub category: Option<String>,
    pub icon_url: Option<String>,
    pub entry_url: Option<String>,
    pub callback_url: Option<String>,
    pub portal_managed: Option<bool>,
    pub auth_enabled: Option<bool>,
    pub supports_sub_admin: Option<bool>,
    pub supported_identity_levels: Option<Vec<String>>,
    pub supported_permissions: Option<Vec<String>>,
    pub supported_scopes: Option<String>,
}

/// The assignments of a subsystem change, in form order: name and entry URL as
/// given; description, category, icon and callback URL trimmed, `NULL` where blank;
/// the three flags; the identity levels and permissions as JSON text; the scopes.
pub open spec fn system_sets(c: SystemChanges) -> Seq<Seq<char>> {
    present(
        seq![
            text_set("name"@, c.name.deep_view()),
            nullable_set("description"@, c.description.deep_view()),
            nullable_set("category"@, c.category.deep_view()),
            nullable_set("icon_url"@, c.icon_url.deep_view()),
            text_set("entry_url"@, c.entry_url.deep_view()),
            nullable_set("callback_url"@, c.callback_url.deep_view()),
            bool_set("portal_managed"@, c.portal_managed),
            bool_set("auth_enabled"@, c.auth_enabled),
            bool_set("supports_sub_admin"@, c.supports_sub_admin),
            text_set("supported_identity_levels"@, opt_list_json(c.supported_identity_levels.deep_view())),
            text_set("supported_permissions"@, opt_list_json(c.supported_permissions.deep_view())),
            text_set("supported_scopes"@, c.supported_scopes.deep_view()),
        ],
    )
}

/// Each field of a subsystem change that is given is written to its own column: name,
/// entry URL and scopes as given; description, category, icon and callback URL trimmed
/// (`NULL` where blank); each flag to its own column; the identity levels and
/// permissions as JSON lists.
pub proof fn law_system_change_writes_own_columns(c: SystemChanges)
    ensures
        c.name matches Some(x) ==> system_sets(c).contains(assign("name"@, quoted(x@))),
        c.description matches Some(x) ==> system_sets(c).contains(assign("description"@, nullable(x@))),
        c.category matches Some(x) ==> system_sets(c).contains(assign("category"@, nullable(x@))),
        c.icon_url matches Some(x) ==> system_sets(c).contains(assign("icon_url"@, nullable(x@))),
        c.entry_url matches Some(x) ==> system_sets(c).contains(assign("entry_url"@, quoted(x@))),
        c.callback_url matches Some(x) ==> system_sets(c).contains(assign("callback_url"@, nullable(x@))),
        c.portal_managed matches Some(b) ==> system_sets(c).contains(assign("portal_managed"@, bool_text(b))),
        c.auth_enabled matches Some(b) ==> system_sets(c).contains(assign("auth_enabled"@, bool_text(b))),
        c.supports_sub_admin matches Some(b) ==> system_sets(c).contains(assign("supports_sub_admin"@, bool_text(b))),
        c.supported_identity_levels matches Some(v) ==> system_sets(c).contains(assign("supported_identity_levels"@, quoted(list_json(v.deep_view())))),
        c.supported_permissions matches Some(v) ==> system_sets(c).contains(assign("supported_permissions"@, quoted(list_json(v.deep_view())))),
        c.supported_scopes matches Some(x) ==> system_sets(c).contains(assign("supported_scopes"@, quoted(x@))),
{
    let items = seq![
        text_set("name"@, c.name.deep_view()),
        nullable_set("description"@, c.description.deep_view()),
        nullable_set("category"@, c.category.deep_view()),
        nullable_set("icon_url"@, c.icon_url.deep_view()),
        text_set("entry_url"@, c.entry_url.deep_view()),
        nullable_set("callback_url"@, c.callback_url.deep_view()),
        bool_set("portal_managed"@, c.portal_managed),
        bool_set("auth_enabled"@, c.auth_enabled),
        bool_set("supports_sub_admin"@, c.supports_sub_admin),
        text_set("supported_identity_levels"@, opt_list_json(c.supported_identity_levels.deep_view())),
        text_set("supported_permissions"@, opt_list_json(c.supported_permissions.deep_view())),
        text_set("supported_scopes"@, c.supported_scopes.deep_view()),
    ];
    if c.name is Some {
        lemma_present_contains(items, 0);
    }
    if c.description is Some {
        lemma_present_contains(items, 1);
    }
    if c.category is Some {
        lemma_present_contains(items, 2);
    }
    if c.icon_url is Some {
        lemma_present_contains(items, 3);
    }
    if c.entry_url is Some {
        lemma_present_contains(items, 4);
    }
    if c.callback_url is Some {
        lemma_present_contains(items, 5);
    }
    if c.portal_managed is Some {
        lemma_present_contains(items, 6);
    }
    if c.auth_enabled is Some {
        lemma_present_contains(items, 7);
    }
    if c.supports_sub_admin is Some {
        lemma_present_contains(items, 8);
    }
    if c.supported_identity_levels is Some {
        lemma_present_contains(items, 9);
    }
    if c.supported_permissions is Some {
        lemma_present_contains(items, 10);
    }
    if c.supported_scopes is Some {
        lemma_present_contains(items, 11);
    }
}

/// The columns of a subsystem that an update gives back.
pub open spec fn system_columns() -> Seq<char> {
    " RETURNING id, code, name, description, category, icon_url, entry_url, callback_url, status, portal_managed, auth_enabled, supports_sub_admin, supported_identity_levels, supported_permissions, supported_scopes, created_at, updated_at"@
}

/// The statement that applies a subsystem change; none where nothing changes.
pub fn system_update_sql(system_id: Id, c: &SystemChanges) -> (r: Option<String>)
    ensures
        system_sets(*c).len() == 0 ==> r is None,
        system_sets(*c).len() > 0 ==> (r matches Some(s) && s@ == update_sql(
            "portal_systems"@,
            stamped(system_sets(*c)),
            "id"@,
            system_id,
            system_columns(),
        )),
{
    let levels = opt_list_text(&c.supported_identity_levels);
    let permissions = opt_list_text(&c.supported_permissions);
    let mut items: Vec<Option<String>> = Vec::new();
    items.push(text_assignment("name", &c.name));
    items.push(nullable_assignment("description", &c.description));
    items.push(nullable_assignment("category", &c.category));
    items.push(nullable_assignment("icon_url", &c.icon_url));
    items.push(text_assignment("entry_url", &c.entry_url));
    items.push(nullable_assignment("callback_url", &c.callback_url));
    items.push(bool_assignment("portal_managed", c.portal_managed));
    items.push(bool_assignment("auth_enabled", c.auth_enabled));
    items.push(bool_assignment("supports_sub_admin", c.supports_sub_admin));
    items.push(text_assignment("supported_identity_levels", &levels));
    items.push(text_assignment("supported_permissions", &permissions));
    items.push(text_assignment("supported_scopes", &c.supported_scopes));
    assert(items.deep_view() =~= seq![
        text_set("name"@, c.name.deep_view()),
        nullable_set("description"@, c.description.deep_view()),
        nullable_set("category"@, c.category.deep_view()),
        nullable_set("icon_url"@, c.icon_url.deep_view()),
        text_set("entry_url"@, c.entry_url.deep_view()),
        nullable_set("callback_url"@, c.callback_url.deep_view()),
        bool_set("portal_managed"@, c.portal_managed),
        bool_set("auth_enabled"@, c.auth_enabled),
        bool_set("supports_sub_admin"@, c.supports_sub_admin),
        text_set("supported_identity_levels"@, opt_list_json(c.supported_identity_levels.deep_view())),
        text_set("supported_permissions"@, opt_list_json(c.supported_permissions.deep_view())),
        text_set("supported_scopes"@, c.supported_scopes.deep_view()),
    ]);
    let mut sets = keep_present(&items);
    if sets.len() == 0 {
        return None;
    }
    stamp(&mut sets);
    Some(update_statement(
        "portal_systems",
        &sets,
        "id",
        system_id,
        " RETURNING id, code, name, description, category, icon_url, entry_url, callback_url, status, portal_managed, auth_enabled, supports_sub_admin, supported_identity_levels, supported_permissions, supported_scopes, created_at, updated_at",
    ))
}

/// The status that follows `s` when an administrator toggles it without naming one:
/// active, maintenance, disabled, onboarding, and round again.
pub open spec fn next_in_cycle(s: SystemStatus) -> SystemStatus {
    match s {
        SystemStatus::Active => SystemStatus::Maintenance,
        SystemStatus::Maintenance => SystemStatus::Disabled,
        SystemStatus::Disabled => SystemStatus::Onboarding,
        SystemStatus::Onboarding => SystemStatus::Active,
    }
}

/// The new status of a subsystem: the one requested, else the next in the cycle.
pub fn next_system_status(current: SystemStatus, requested: Option<SystemStatus>) -> (r: SystemStatus)
    ensures
        r == match requested {
            Some(s) => s,
            None => next_in_cycle(current),
        },
{
    match requested {
        Some(s) => s,
        None => match current {
            SystemStatus::Active => SystemStatus::Maintenance,
            SystemStatus::Maintenance => SystemStatus::Disabled,
            SystemStatus::Disabled => SystemStatus::Onboarding,
            SystemStatus::Onboarding => SystemStatus::Active,
        },
    }
}

/// Toggling the status four times brings a subsystem back where it was, through every
/// other status once.
pub proof fn law_status_cycle(s: SystemStatus)
    ensures
        next_in_cycle(next_in_cycle(next_in_cycle(next_in_cycle(s)))) == s,
        next_in_cycle(s) != s,
        next_in_cycle(next_in_cycle(s)) != s,
        next_in_cycle(next_in_cycle(next_in_cycle(s))) != s,
{
}

/// The statement that sets a subsystem's status.
pub fn system_status_sql(system_id: Id, status: SystemStatus) -> (r: String)
    ensures
        r@ == update_sql(
            "portal_systems"@,
            stamped(seq![assign("status"@, named(system_status_name(status)))]),
            "id"@,
            system_id,
            system_columns(),
        ),
{
    let v = named_value(status.as_str());
    let mut sets: Vec<String> = Vec::new();
    sets.push(assignment("status", v.as_str()));
    stamp(&mut sets);
    assert(sets.deep_view() =~= stamped(seq![assign("status"@, named(system_status_name(status)))]));
    update_statement(
        "portal_systems",
        &sets,
        "id",
        system_id,
        " RETURNING id, code, name, description, category, icon_url, entry_url, callback_url, status, portal_managed, auth_enabled, supports_sub_admin, supported_identity_levels, supported_permissions, supported_scopes, created_at, updated_at",
    )
}

// ---------------------------------------------------------------------------
// Integration settings
// ---------------------------------------------------------------------------

/// The integration settings given with a subsystem. The environment template is the
/// JSON text of its value.
#[derive(Debug)]
pub struct IntegrationConfigInput {
    pub issuer: Option<String>,
    pub auth_mode: AuthMode,
    pub token_ttl_seconds: i32,
    pub public_key: Option<String>,
    pub verify_endpoint: Option<String>,
    pub env_template: String,
}

/// `column = 'value'`, or `column = NULL` where no value is given.
pub open spec fn text_or_null(column: Seq<char>, v: Option<Seq<char>>) -> Seq<char> {
    match v {
        Some(x) => assign(column, quoted(x)),
        None => assign(column, "NULL"@),
    }
}

fn text_or_null_assignment(column: &str, v: &Option<String>) -> (r: String)
    ensures
        r@ == text_or_null(column@, v.deep_view()),
{
    match v {
        Some(x) => {
            let q = quote(x.as_str());
            assignment(column, q.as_str())
        },
        None => assignment(column, "NULL"),
    }
}

/// The assignments that replace existing integration settings with those given with
/// a subsystem: the issuer where given; mode and token lifetime always; key and
/// verification endpoint, `NULL` where not given; the environment template.
pub open spec fn config_sets(c: IntegrationConfigInput) -> Seq<Seq<char>> {
    present(
        seq![
            Some("updated_at = NOW()"@),
            text_set("issuer"@, c.issuer.deep_view()),
            Some(assign("auth_mode"@, named(auth_mode_name(c.auth_mode)))),
            Some(assign("token_ttl_seconds"@, signed_decimal(c.token_ttl_seconds as int))),
            Some(text_or_null("public_key"@, c.public_key.deep_view())),
            Some(text_or_null("verify_endpoint"@, c.verify_endpoint.deep_view())),
            Some(assign("env_template"@, quoted(c.env_template@))),
        ],
    )
}

/// The statement that replaces a subsystem's existing integration settings.
pub fn config_update_sql(system_id: Id, c: &IntegrationConfigInput) -> (r: String)
    ensures
        r@ == update_sql("portal_integration_configs"@, config_sets(*c), "system_id"@, system_id, ""@),
{
    let env = quote(c.env_template.as_str());
    let mode = named_value(c.auth_mode.as_str());
    let mut items: Vec<Option<String>> = Vec::new();
    items.push(Some(owned("updated_at = NOW()")));
    items.push(text_assignment("issuer", &c.issuer));
    items.push(Some(assignment("auth_mode", mode.as_str())));
    items.push(int_assignment("token_ttl_seconds", Some(c.token_ttl_seconds as i64)));
    items.push(Some(text_or_null_assignment("public_key", &c.public_key)));
    items.push(Some(text_or_null_assignment("verify_endpoint", &c.verify_endpoint)));
    items.push(Some(assignment("env_template", env.as_str())));
    assert(items.deep_view() =~= seq![
        Some("updated_at = NOW()"@),
        text_set("issuer"@, c.issuer.deep_view()),
        Some(assign("auth_mode"@, named(auth_mode_name(c.auth_mode)))),
        Some(assign("token_ttl_seconds"@, signed_decimal(c.token_ttl_seconds as int))),
        Some(text_or_null("public_key"@, c.public_key.deep_view())),
        Some(text_or_null("verify_endpoint"@, c.verify_endpoint.deep_view())),
        Some(assign("env_template"@, quoted(c.env_template@))),
    ]);
    let sets = keep_present(&items);
    update_statement("portal_integration_configs", &sets, "system_id", system_id, "")
}

/// The integration settings stored for a subsystem that has none yet.
#[derive(Debug)]
pub struct IntegrationRecord {
    pub issuer: String,
    pub auth_mode: AuthMode,
    pub token_ttl_seconds: i32,
    pub public_key: Option<String>,
    pub verify_endpoint: Option<String>,
    pub env_template: String,
}

/// The issuer of new settings: the one given, trimmed, else the portal's local address.
pub open spec fn issuer_or_default(o: Option<Seq<char>>) -> Seq<char> {
    match o {
        Some(s) => trim(s),
        None => "http://localhost:8080"@,
    }
}

fn issuer_value(o: &Option<String>) -> (r: String)
    ensures
        r@ == issuer_or_default(o.deep_view()),
{
    match o {
        Some(s) => trim_str(s.as_str()),
        None => owned("http://localhost:8080"),
    }
}

/// New settings from those given with a subsystem: issuer as `issuer_or_default`,
/// key and endpoint trimmed, the rest as given.
pub fn new_config_record(c: &IntegrationConfigInput) -> (r: IntegrationRecord)
    ensures
        r.issuer@ == issuer_or_default(c.issuer.deep_view()),
        r.auth_mode == c.auth_mode,
        r.token_ttl_seconds == c.token_ttl_seconds,
        r.public_key.deep_view() == opt_trim(c.public_key.deep_view()),
        r.verify_endpoint.deep_view() == opt_trim(c.verify_endpoint.deep_view()),
        r.env_template@ == c.env_template@,
{
    IntegrationRecord {
        issuer: issuer_value(&c.issuer),
        auth_mode: c.auth_mode,
        token_ttl_seconds: c.token_ttl_seconds,
        public_key: trim_option(&c.public_key),
        verify_endpoint: trim_option(&c.verify_endpoint),
        env_template: c.env_template.clone(),
    }
}

/// A change of a subsystem's integration settings. The environment template is the
/// JSON text of its value.
#[derive(Debug)]
pub struct IntegrationChanges {
    pub issuer: Option<String>,
    pub auth_mode: Option<AuthMode>,
    pub token_ttl_seconds: Option<i32>,
    pub public_key: Option<String>,
    pub verify_endpoint: Option<String>,
    pub env_template: Option<String>,
    pub callback_url: Option<String>,
}

/// The stored name of a mode, where one is given.
pub open spec fn opt_auth_mode(m: Option<AuthMode>) -> Option<Seq<char>> {
    match m {
        Some(x) => Some(auth_mode_name(x)),
        None => None,
    }
}

/// An optional 32-bit integer as a mathematical one.
pub open spec fn opt_int(o: Option<i32>) -> Option<int> {
    match o {
        Some(n) => Some(n as int),
        None => None,
    }
}

/// The assignments that a change makes to existing integration settings: the
/// modification time, then each field that is given.
pub open spec fn integration_sets(c: IntegrationChanges) -> Seq<Seq<char>> {
    present(
        seq![
            Some("updated_at = NOW()"@),
            text_set("issuer"@, c.issuer.deep_view()),
            named_set("auth_mode"@, opt_auth_mode(c.auth_mode)),
            int_set("token_ttl_seconds"@, opt_int(c.token_ttl_seconds)),
            text_set("public_key"@, c.public_key.deep_view()),
            text_set("verify_endpoint"@, c.verify_endpoint.deep_view()),
            text_set("env_template"@, c.env_template.deep_view()),
        ],
    )
}

/// Each field of an integration change that is given is written to its own column.
pub proof fn law_integration_change_writes_own_columns(c: IntegrationChanges)
    ensures
        c.issuer matches Some(x) ==> integration_sets(c).contains(assign("issuer"@, quoted(x@))),
        c.auth_mode matches Some(m) ==> integration_sets(c).contains(assign("auth_mode"@, named(auth_mode_name(m)))),
        c.token_ttl_seconds matches Some(n) ==> integration_sets(c).contains(assign("token_ttl_seconds"@, signed_decimal(n as int))),
        c.public_key matches Some(x) ==> integration_sets(c).contains(assign("public_key"@, quoted(x@))),
        c.verify_endpoint matches Some(x) ==> integration_sets(c).contains(assign("verify_endpoint"@, quoted(x@))),
        c.env_template matches Some(x) ==> integration_sets(c).contains(assign("env_template"@, quoted(x@))),
{
    let items = seq![
        Some("updated_at = NOW()"@),
        text_set("issuer"@, c.issuer.deep_view()),
        named_set("auth_mode"@, opt_auth_mode(c.auth_mode)),
        int_set("token_ttl_seconds"@, opt_int(c.token_ttl_seconds)),
        text_set("public_key"@, c.public_key.deep_view()),
        text_set("verify_endpoint"@, c.verify_endpoint.deep_view()),
        text_set("env_template"@, c.env_template.deep_view()),
    ];
    if c.issuer is Some {
        lemma_present_contains(items, 1);
    }
    if c.auth_mode is Some {
        lemma_present_contains(items, 2);
    }
    if c.token_ttl_seconds is Some {
        lemma_present_contains(items, 3);
    }
    if c.public_key is Some {
        lemma_present_contains(items, 4);
    }
    if c.verify_endpoint is Some {
        lemma_present_contains(items, 5);
    }
    if c.env_template is Some {
        lemma_present_contains(items, 6);
    }
}

/// The statement that applies a change to existing integration settings.
pub fn integration_update_sql(system_id: Id, c: &IntegrationChanges) -> (r: String)
    ensures
        r@ == update_sql("portal_integration_configs"@, integration_sets(*c), "system_id"@, system_id, ""@),
{
    let mode = match c.auth_mode {
        Some(m) => Some(m.as_str()),
        None => None,
    };
    let ttl = match c.token_ttl_seconds {
        Some(n) => Some(n as i64),
        None => None,
    };
    let mut items: Vec<Option<String>> = Vec::new();
    items.push(Some(owned("updated_at = NOW()")));
    items.push(text_assignment("issuer", &c.issuer));
    items.push(named_assignment("auth_mode", mode));
    items.push(int_assignment("token_ttl_seconds", ttl));
    items.push(text_assignment("public_key", &c.public_key));
    items.push(text_assignment("verify_endpoint", &c.verify_endpoint));
    items.push(text_assignment("env_template", &c.env_template));
    assert(items.deep_view() =~= seq![
        Some("updated_at = NOW()"@),
        text_set("issuer"@, c.issuer.deep_view()),
        named_set("auth_mode"@, opt_auth_mode(c.auth_mode)),
        int_set("token_ttl_seconds"@, opt_int(c.token_ttl_seconds)),
        text_set("public_key"@, c.public_key.deep_view()),
        text_set("verify_endpoint"@, c.verify_endpoint.deep_view()),
        text_set("env_template"@, c.env_template.deep_view()),
    ]);
    let sets = keep_present(&items);
    update_statement("portal_integration_configs", &sets, "system_id", system_id, "")
}

/// The callback URL that a change stores on the subsystem, trimmed, where one is given.
pub fn changed_callback_url(c: &IntegrationChanges) -> (r: Option<String>)
    ensures
        r.deep_view() == opt_trim(c.callback_url.deep_view()),
{
    trim_option(&c.callback_url)
}

/// New settings from a change, for a subsystem that has none yet: issuer as
/// `issuer_or_default`, authorization-code mode, a 300-second token lifetime and an
/// empty template unless given, key and endpoint trimmed.
pub fn new_integration_record(c: &IntegrationChanges) -> (r: IntegrationRecord)
    ensures
        r.issuer@ == issuer_or_default(c.issuer.deep_view()),
        r.auth_mode == match c.auth_mode {
            Some(m) => m,
            None => AuthMode::AuthorizationCode,
        },
        r.token_ttl_seconds == match c.token_ttl_seconds {
            Some(n) => n,
            None => 300i32,
        },
        r.public_key.deep_view() == opt_trim(c.public_key.deep_view()),
        r.verify_endpoint.deep_view() == opt_trim(c.verify_endpoint.deep_view()),
        r.env_template@ == match c.env_template {
            Some(t) => t@,
            None => "{}"@,
        },
{
    IntegrationRecord {
        issuer: issuer_value(&c.issuer),
        auth_mode: match c.auth_mode {
            Some(m) => m,
            None => AuthMode::AuthorizationCode,
        },
        token_ttl_seconds: match c.token_ttl_seconds {
            Some(n) => n,
            None => 300,
        },
        public_key: trim_option(&c.public_key),
        verify_endpoint: trim_option(&c.verify_endpoint),
        env_template: match &c.env_template {
            Some(t) => t.clone(),
            None => owned("{}"),
        },
    }
}

// ---------------------------------------------------------------------------
// Sub-administrator grants
// ---------------------------------------------------------------------------

/// A change of a sub-administrator grant. The scopes are the JSON text of their list;
/// the start and end are RFC 3339 timestamps.
#[derive(Debug)]
pub struct GrantChanges {
    pub admin_type: Option<AdminType>,
    pub scopes: Option<String>,
    pub status: Option<GrantStatus>,
    pub reason: Option<String>,
    pub starts_at: Option<String>,
    pub expires_at: Option<String>,
}

/// The stored name of a level, where one is given.
pub open spec fn opt_admin_type(t: Option<AdminType>) -> Option<Seq<char>> {
    match t {
        Some(x) => Some(admin_type_name(x)),
        None => None,
    }
}

/// The stored name of a status, where one is given.
pub open spec fn opt_grant_status(s: Option<GrantStatus>) -> Option<Seq<char>> {
    match s {
        Some(x) => Some(grant_status_name(x)),
        None => None,
    }
}

/// The end of a grant: the one given; where none is given but the status changes, the
/// grant no longer ends.
pub open spec fn expiry_set(c: GrantChanges) -> Option<Seq<char>> {
    match c.expires_at {
        Some(v) => Some(assign("expires_at"@, named(v@))),
        None => if c.status.is_some() {
            Some(assign("expires_at"@, "NULL"@))
        } else {
            None
        },
    }
}

/// The assignments of a grant change: each field given, the end as `expiry_set`, then
/// the modification time and the administrator who made it.
pub open spec fn grant_sets(c: GrantChanges, actor: Id) -> Seq<Seq<char>> {
    present(
        seq![
            named_set("admin_type"@, opt_admin_type(c.admin_type)),
            text_set("scopes"@, c.scopes.deep_view()),
            named_set("status"@, opt_grant_status(c.status)),
            text_set("reason"@, c.reason.deep_view()),
            named_set("starts_at"@, c.starts_at.deep_view()),
            expiry_set(c),
            Some("updated_at = NOW()"@),
            Some(assign("updated_by"@, named(id_text_spec(actor)))),
        ],
    )
}

/// Each field of a grant change that is given is written to its own column, and the
/// change records who made it.
pub proof fn law_grant_change_writes_own_columns(c: GrantChanges, actor: Id)
    ensures
        c.admin_type matches Some(t) ==> grant_sets(c, actor).contains(assign("admin_type"@, named(admin_type_name(t)))),
        c.scopes matches Some(x) ==> grant_sets(c, actor).contains(assign("scopes"@, quoted(x@))),
        c.status matches Some(st) ==> grant_sets(c, actor).contains(assign("status"@, named(grant_status_name(st)))),
        c.reason matches Some(x) ==> grant_sets(c, actor).contains(assign("reason"@, quoted(x@))),
        c.starts_at matches Some(x) ==> grant_sets(c, actor).contains(assign("starts_at"@, named(x@))),
        c.expires_at matches Some(x) ==> grant_sets(c, actor).contains(assign("expires_at"@, named(x@))),
        grant_sets(c, actor).contains(assign("updated_by"@, named(id_text_spec(actor)))),
{
    let items = seq![
        named_set("admin_type"@, opt_admin_type(c.admin_type)),
        text_set("scopes"@, c.scopes.deep_view()),
        named_set("status"@, opt_grant_status(c.status)),
        text_set("reason"@, c.reason.deep_view()),
        named_set("starts_at"@, c.starts_at.deep_view()),
        expiry_set(c),
        Some("updated_at = NOW()"@),
        Some(assign("updated_by"@, named(id_text_spec(actor)))),
    ];
    if c.admin_type is Some {
        lemma_present_contains(items, 0);
    }
    if c.scopes is Some {
        lemma_present_contains(items, 1);
    }
    if c.status is Some {
        lemma_present_contains(items, 2);
    }
    if c.reason is Some {
        lemma_present_contains(items, 3);
    }
    if c.starts_at is Some {
        lemma_present_contains(items, 4);
    }
    if c.expires_at is Some {
        lemma_present_contains(items, 5);
    }
    lemma_present_contains(items, 7);
}

/// The columns of a grant that an update gives back.
pub open spec fn grant_columns() -> Seq<char> {
    " RETURNING id, user_id, tenant_id, system_id, admin_type, scopes, status, reason, starts_at, expires_at, created_by, updated_by, created_at, updated_at"@
}

/// The statement that applies a grant change made by `actor`.
pub fn grant_update_sql(grant_id: Id, actor: Id, c: &GrantChanges) -> (r: String)
    ensures
        r@ == update_sql("portal_sub_admin_grants"@, grant_sets(*c, actor), "id"@, grant_id, grant_columns()),
{
    let admin_type = match c.admin_type {
        Some(t) => Some(t.as_str()),
        None => None,
    };
    let status = match c.status {
        Some(s) => Some(s.as_str()),
        None => None,
    };
    let starts = match &c.starts_at {
        Some(v) => Some(v.as_str()),
        None => None,
    };
    let expiry = match &c.expires_at {
        Some(v) => {
            let q = named_value(v.as_str());
            Some(assignment("expires_at", q.as_str()))
        },
        None => if c.status.is_some() {
            Some(assignment("expires_at", "NULL"))
        } else {
            None
        },
    };
    let actor_text = named_value(crate::ids::id_text(actor).as_str());
    let mut items: Vec<Option<String>> = Vec::new();
    items.push(named_assignment("admin_type", admin_type));
    items.push(text_assignment("scopes", &c.scopes));
    items.push(named_assignment("status", status));
    items.push(text_assignment("reason", &c.reason));
    items.push(named_assignment("starts_at", starts));
    items.push(expiry);
    items.push(Some(owned("updated_at = NOW()")));
    items.push(Some(assignment("updated_by", actor_text.as_str())));
    assert(items.deep_view() =~= seq![
        named_set("admin_type"@, opt_admin_type(c.admin_type)),
        text_set("scopes"@, c.scopes.deep_view()),
        named_set("status"@, opt_grant_status(c.status)),
        text_set("reason"@, c.reason.deep_view()),
        named_set("starts_at"@, c.starts_at.deep_view()),
        expiry_set(*c),
        Some("updated_at = NOW()"@),
        Some(assign("updated_by"@, named(id_text_spec(actor)))),
    ]);
    let sets = keep_present(&items);
    update_statement(
        "portal_sub_admin_grants",
        &sets,
        "id",
        grant_id,
        " RETURNING id, user_id, tenant_id, system_id, admin_type, scopes, status, reason, starts_at, expires_at, created_by, updated_by, created_at, updated_at",
    )
}

} // verus!
