//! The portal's records as they are stored and handed to subsystems. Identifiers are
//! `Id`s, times are RFC 3339 timestamps and JSON columns are `Json` values.

use vstd::prelude::*;
use crate::json::Json;
use crate::model::{AdminScope, AdminType, AuditResult, GrantStatus, Id, RoleType, SubjectType, SystemStatus, TenantStatus, UserStatus};
use crate::permissions::{SystemAccess, clone_scopes};
use crate::text::{owned, clone_opt, clone_strings};

verus! {

/// A portal account.
#[derive(Debug)]
pub struct User {
    pub id: Id,
    pub username: String,
    pub password_hash: Option<String>,
    pub display_name: String,
    pub email: Option<String>,
    pub phone: Option<String>,
    pub avatar_url: Option<String>,
    pub organization_path: Option<String>,
    pub status: UserStatus,
    pub default_tenant_id: Option<Id>,
    pub preferences: Json,
    pub last_login_at: Option<String>,
    pub created_at: String,
    pub updated_at: String,
}

/// A portal role.
#[derive(Debug)]
pub struct Role {
    pub id: Id,
    pub code: String,
    pub name: String,
    pub role_type: RoleType,
    pub description: Option<String>,
    pub is_builtin: bool,
    pub created_at: String,
    pub updated_at: String,
}

/// A tenant.
#[derive(Debug)]
pub struct Tenant {
    pub id: Id,
    pub code: String,
    pub name: String,
    pub status: TenantStatus,
    pub description: Option<String>,
    pub created_at: String,
    pub updated_at: String,
}

/// A subsystem registered with the portal.
#[derive(Debug)]
pub struct System {
    pub id: Id,
    pub code: String,
    pub name: String,
    pub description: Option<String>,
    pub category: Option<String>,
    pub icon_url: Option<String>,
    pub entry_url: String,
    pub callback_url: Option<String>,
    pub status: SystemStatus,
    pub portal_managed: bool,
    pub auth_enabled: bool,
    pub supports_sub_admin: bool,
    pub supported_identity_levels: Json,
    pub supported_permissions: Json,
    pub supported_scopes: Json,
    pub created_at: String,
    pub updated_at: String,
}

/// What a user may do in a subsystem, granted to a user, a role or a tenant.
#[derive(Debug)]
pub struct PermissionAssignment {
    pub id: Id,
    pub subject_type: SubjectType,
    pub subject_id: Id,
    pub tenant_id: Option<Id>,
    pub system_id: Id,
    pub visible: bool,
    pub accessible: bool,
    pub system_roles: Vec<String>,
    pub permissions: Vec<String>,
    pub scopes: Json,
    pub source_note: Option<String>,
    pub starts_at: Option<String>,
    pub expires_at: Option<String>,
    pub created_by: Option<Id>,
    pub updated_by: Option<Id>,
    pub created_at: String,
    pub updated_at: String,
}

/// A sub-administrator grant of a user in a subsystem.
#[derive(Debug)]
pub struct SubAdminGrant {
    pub id: Id,
    pub user_id: Id,
    pub tenant_id: Option<Id>,
    pub system_id: Id,
    pub admin_type: AdminType,
    pub scopes: Json,
    pub status: GrantStatus,
    pub reason: Option<String>,
    pub starts_at: String,
    pub expires_at: Option<String>,
    pub created_by: Option<Id>,
    pub updated_by: Option<Id>,
    pub created_at: String,
    pub updated_at: String,
}

/// One recorded event of the audit trail.
#[derive(Debug)]
pub struct AuditEvent {
    pub id: Id,
    pub request_id: Option<String>,
    pub occurred_at: String,
    pub actor_user_id: Option<Id>,
    pub action: String,
    pub target_type: String,
    pub target_id: Option<String>,
    pub system_id: Option<Id>,
    pub tenant_id: Option<Id>,
    pub result: AuditResult,
    pub before_data: Option<Json>,
    pub after_data: Option<Json>,
    pub failure_reason: Option<String>,
    pub ip_address: Option<String>,
    pub user_agent: Option<String>,
}

/// What a subsystem learns of a user when it redeems a ticket; the times are Unix
/// seconds.
#[derive(Debug)]
pub struct SubsystemContext {
    pub user_id: Id,
    pub username: String,
    pub display_name: String,
    pub email: Option<String>,
    pub avatar_url: Option<String>,
    pub tenant_id: Option<Id>,
    pub tenant_code: String,
    pub tenant_name: String,
    pub system_code: String,
    pub portal_roles: Vec<String>,
    pub system_roles: Vec<String>,
    pub admin_scopes: Vec<AdminScope>,
    pub permissions: Vec<String>,
    pub issued_at: i64,
    pub expires_at: i64,
}

/// The context stored with a ticket for a user entering a subsystem in a tenant: who
/// the user is, the tenant, the subsystem, the user's portal roles, the subsystem roles,
/// permissions and scopes of the user's access there, issued at `issued_at` and valid
/// for `ttl_seconds`.
pub fn subsystem_context(
    user_id: Id,
    username: &str,
    display_name: &str,
    email: &Option<String>,
    avatar_url: &Option<String>,
    tenant_id: Id,
    tenant_code: &str,
    tenant_name: &str,
    system_code: &str,
    portal_roles: &Vec<String>,
    access: &SystemAccess,
    issued_at: i64,
    ttl_seconds: i64,
) -> (r: SubsystemContext)
    requires
        i64::MIN <= issued_at + ttl_seconds <= i64::MAX,
    ensures
        r.user_id == user_id,
        r.username@ == username@,
        r.display_name@ == display_name@,
        r.email == *email,
        r.avatar_url == *avatar_url,
        r.tenant_id == Some(tenant_id),
        r.tenant_code@ == tenant_code@,
        r.tenant_name@ == tenant_name@,
        r.system_code@ == system_code@,
        r.portal_roles.deep_view() == portal_roles.deep_view(),
        r.system_roles.deep_view() == access.system_roles.deep_view(),
        r.permissions.deep_view() == access.permissions.deep_view(),
        r.admin_scopes.deep_view() == access.scopes.deep_view(),
        r.issued_at == issued_at,
        r.expires_at == issued_at + ttl_seconds,
{
    SubsystemContext {
        user_id,
        username: owned(username),
        display_name: owned(display_name),
        email: clone_opt(email),
        avatar_url: clone_opt(avatar_url),
        tenant_id: Some(tenant_id),
        tenant_code: owned(tenant_code),
        tenant_name: owned(tenant_name),
        system_code: owned(system_code),
        portal_roles: clone_strings(portal_roles),
        system_roles: clone_strings(&access.system_roles),
        permissions: clone_strings(&access.permissions),
        admin_scopes: clone_scopes(&access.scopes),
        issued_at,
        expires_at: issued_at + ttl_seconds,
    }
}

/// A user's access to every subsystem in one tenant.
#[derive(Debug)]
pub struct EffectiveContext {
    pub user_id: Id,
    pub tenant_id: Option<Id>,
    pub portal_roles: Vec<String>,
    pub system_access: Vec<SystemAccess>,
}

} // verus!
