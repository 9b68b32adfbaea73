//! The portal's domain vocabulary: statuses, kinds and small records shared
//! by the permission computation and the HTTP layer.

use vstd::prelude::*;
use crate::text::text_eq;

verus! {

/// Identifier of a stored record (the 128 bits of its UUID).
pub type Id = u128;

/// Lifecycle of a portal account.
#[derive(Clone, Copy, Debug, PartialEq, Eq, Structural)]
pub enum UserStatus {
    Active,
    Disabled,
    Pending,
    Archived,
}

/// Kind of a portal role.
#[derive(Clone, Copy, Debug, PartialEq, Eq, Structural)]
pub enum RoleType {
    SuperAdmin,
    Normal,
    SubsystemAdmin,
    Custom,
}

/// Lifecycle of a tenant.
#[derive(Clone, Copy, Debug, PartialEq, Eq, Structural)]
pub enum TenantStatus {
    Active,
    Disabled,
    Archived,
}

/// Lifecycle of a connected subsystem.
#[derive(Clone, Copy, Debug, PartialEq, Eq, Structural)]
pub enum SystemStatus {
    Active,
    Disabled,
    Onboarding,
    Maintenance,
}

/// Who a permission assignment is attached to.
#[derive(Clone, Copy, Debug, PartialEq, Eq, Structural)]
pub enum SubjectType {
    User,
    Role,
    Tenant,
}

/// Level of a sub-administrator grant.
#[derive(Clone, Copy, Debug, PartialEq, Eq, Structural)]
pub enum AdminType {
    System,
    Tenant,
    Module,
    Resource,
    Organization,
}

/// Lifecycle of a sub-administrator grant.
#[derive(Clone, Copy, Debug, PartialEq, Eq, Structural)]
pub enum GrantStatus {
    Active,
    Inactive,
    Expired,
}

/// How a subsystem authenticates portal users.
#[derive(Clone, Copy, Debug, PartialEq, Eq, Structural)]
pub enum AuthMode {
    Jwt,
    AuthorizationCode,
}

/// Outcome recorded on an audit event.
#[derive(Clone, Copy, Debug, PartialEq, Eq, Structural)]
pub enum AuditResult {
    Success,
    Failure,
}

/// The snake_case name under which a user status is stored and serialized.
pub open spec fn user_status_name(s: UserStatus) -> Seq<char> {
    match s {
        UserStatus::Active => "active"@,
        UserStatus::Disabled => "disabled"@,
        UserStatus::Pending => "pending"@,
        UserStatus::Archived => "archived"@,
    }
}

/// The snake_case name under which a system status is stored and serialized.
pub open spec fn system_status_name(s: SystemStatus) -> Seq<char> {
    match s {
        SystemStatus::Active => "active"@,
        SystemStatus::Disabled => "disabled"@,
        SystemStatus::Onboarding => "onboarding"@,
        SystemStatus::Maintenance => "maintenance"@,
    }
}

/// The snake_case name under which a subject type is stored and serialized.
pub open spec fn subject_type_name(s: SubjectType) -> Seq<char> {
    match s {
        SubjectType::User => "user"@,
        SubjectType::Role => "role"@,
        SubjectType::Tenant => "tenant"@,
    }
}

/// The snake_case name of an administrator level.
pub open spec fn admin_type_name(t: AdminType) -> Seq<char> {
    match t {
        AdminType::System => "system"@,
        AdminType::Tenant => "tenant"@,
        AdminType::Module => "module"@,
        AdminType::Resource => "resource"@,
        AdminType::Organization => "organization"@,
    }
}

/// The snake_case name under which a role type is stored and serialized.
pub open spec fn role_type_name(t: RoleType) -> Seq<char> {
    match t {
        RoleType::SuperAdmin => "super_admin"@,
        RoleType::Normal => "normal"@,
        RoleType::SubsystemAdmin => "subsystem_admin"@,
        RoleType::Custom => "custom"@,
    }
}

/// The snake_case name under which a tenant status is stored and serialized.
pub open spec fn tenant_status_name(s: TenantStatus) -> Seq<char> {
    match s {
        TenantStatus::Active => "active"@,
        TenantStatus::Disabled => "disabled"@,
        TenantStatus::Archived => "archived"@,
    }
}

/// The snake_case name under which a grant status is stored and serialized.
pub open spec fn grant_status_name(s: GrantStatus) -> Seq<char> {
    match s {
        GrantStatus::Active => "active"@,
        GrantStatus::Inactive => "inactive"@,
        GrantStatus::Expired => "expired"@,
    }
}

/// The snake_case name under which an authentication mode is stored and serialized.
pub open spec fn auth_mode_name(m: AuthMode) -> Seq<char> {
    match m {
        AuthMode::Jwt => "jwt"@,
        AuthMode::AuthorizationCode => "authorization_code"@,
    }
}

/// The snake_case name under which an audit result is stored and serialized.
pub open spec fn audit_result_name(r: AuditResult) -> Seq<char> {
    match r {
        AuditResult::Success => "success"@,
        AuditResult::Failure => "failure"@,
    }
}

/// The user status stored under `name`; an unknown name is read as active.
pub open spec fn user_status_from_name_spec(name: Seq<char>) -> UserStatus {
    if name == "disabled"@ {
        UserStatus::Disabled
    } else if name == "pending"@ {
        UserStatus::Pending
    } else if name == "archived"@ {
        UserStatus::Archived
    } else {
        UserStatus::Active
    }
}

/// The tenant status stored under `name`; an unknown name is read as active.
pub open spec fn tenant_status_from_name_spec(name: Seq<char>) -> TenantStatus {
    if name == "disabled"@ {
        TenantStatus::Disabled
    } else if name == "archived"@ {
        TenantStatus::Archived
    } else {
        TenantStatus::Active
    }
}

/// The subsystem status stored under `name`; an unknown name is read as active.
pub open spec fn system_status_from_name_spec(name: Seq<char>) -> SystemStatus {
    if name == "disabled"@ {
        SystemStatus::Disabled
    } else if name == "onboarding"@ {
        SystemStatus::Onboarding
    } else if name == "maintenance"@ {
        SystemStatus::Maintenance
    } else {
        SystemStatus::Active
    }
}

/// The administrator level stored under `name`; an unknown name is read as system.
pub open spec fn admin_type_from_name_spec(name: Seq<char>) -> AdminType {
    if name == "tenant"@ {
        AdminType::Tenant
    } else if name == "module"@ {
        AdminType::Module
    } else if name == "resource"@ {
        AdminType::Resource
    } else if name == "organization"@ {
        AdminType::Organization
    } else {
        AdminType::System
    }
}

/// The grant status stored under `name`; an unknown name is read as inactive, so that
/// it never counts as a live grant.
pub open spec fn grant_status_from_name_spec(name: Seq<char>) -> GrantStatus {
    if name == "active"@ {
        GrantStatus::Active
    } else if name == "expired"@ {
        GrantStatus::Expired
    } else {
        GrantStatus::Inactive
    }
}

/// The audit result stored under `name`; an unknown name is read as a success.
pub open spec fn audit_result_from_name_spec(name: Seq<char>) -> AuditResult {
    if name == "failure"@ {
        AuditResult::Failure
    } else {
        AuditResult::Success
    }
}

/// Reads a stored user status.
pub fn user_status_from_name(name: &str) -> (r: UserStatus)
    ensures
        r == user_status_from_name_spec(name@),
{
    if text_eq(name, "disabled") {
        UserStatus::Disabled
    } else if text_eq(name, "pending") {
        UserStatus::Pending
    } else if text_eq(name, "archived") {
        UserStatus::Archived
    } else {
        UserStatus::Active
    }
}

/// Reads a stored tenant status.
pub fn tenant_status_from_name(name: &str) -> (r: TenantStatus)
    ensures
        r == tenant_status_from_name_spec(name@),
{
    if text_eq(name, "disabled") {
        TenantStatus::Disabled
    } else if text_eq(name, "archived") {
        TenantStatus::Archived
    } else {
        TenantStatus::Active
    }
}

/// Reads a stored subsystem status.
pub fn system_status_from_name(name: &str) -> (r: SystemStatus)
    ensures
        r == system_status_from_name_spec(name@),
{
    if text_eq(name, "disabled") {
        SystemStatus::Disabled
    } else if text_eq(name, "onboarding") {
        SystemStatus::Onboarding
    } else if text_eq(name, "maintenance") {
        SystemStatus::Maintenance
    } else {
        SystemStatus::Active
    }
}

/// Reads a stored administrator level.
pub fn admin_type_from_name(name: &str) -> (r: AdminType)
    ensures
        r == admin_type_from_name_spec(name@),
{
    if text_eq(name, "tenant") {
        AdminType::Tenant
    } else if text_eq(name, "module") {
        AdminType::Module
    } else if text_eq(name, "resource") {
        AdminType::Resource
    } else if text_eq(name, "organization") {
        AdminType::Organization
    } else {
        AdminType::System
    }
}

/// Reads a stored grant status.
pub fn grant_status_from_name(name: &str) -> (r: GrantStatus)
    ensures
        r == grant_status_from_name_spec(name@),
{
    if text_eq(name, "active") {
        GrantStatus::Active
    } else if text_eq(name, "expired") {
        GrantStatus::Expired
    } else {
        GrantStatus::Inactive
    }
}

/// Reads a stored audit result.
pub fn audit_result_from_name(name: &str) -> (r: AuditResult)
    ensures
        r == audit_result_from_name_spec(name@),
{
    if text_eq(name, "failure") {
        AuditResult::Failure
    } else {
        AuditResult::Success
    }
}

/// Each stored name reads back as the value it was stored from.
pub proof fn law_stored_names_read_back(
    u: UserStatus,
    t: TenantStatus,
    s: SystemStatus,
    a: AdminType,
    r: AuditResult,
    g: GrantStatus,
)
    ensures
        grant_status_from_name_spec(grant_status_name(g)) == g,
        user_status_from_name_spec(user_status_name(u)) == u,
        tenant_status_from_name_spec(tenant_status_name(t)) == t,
        system_status_from_name_spec(system_status_name(s)) == s,
        admin_type_from_name_spec(admin_type_name(a)) == a,
        audit_result_from_name_spec(audit_result_name(r)) == r,
{
    reveal_strlit("active");
    reveal_strlit("disabled");
    reveal_strlit("pending");
    reveal_strlit("archived");
    reveal_strlit("onboarding");
    reveal_strlit("maintenance");
    reveal_strlit("system");
    reveal_strlit("tenant");
    reveal_strlit("module");
    reveal_strlit("resource");
    reveal_strlit("organization");
    reveal_strlit("success");
    reveal_strlit("failure");
    assert("active"@[0] != "disabled"@[0] && "active"@[0] != "pending"@[0]);
    assert("active"@[1] != "archived"@[1]);
    assert("disabled"@[0] != "pending"@[0] && "disabled"@[0] != "archived"@[0]);
    assert("pending"@[0] != "archived"@[0]);
    assert("active"@[0] != "onboarding"@[0] && "active"@[0] != "maintenance"@[0]);
    assert("disabled"@[0] != "onboarding"@[0] && "disabled"@[0] != "maintenance"@[0] && "onboarding"@[0] != "maintenance"@[0]);
    assert("system"@[0] != "tenant"@[0] && "system"@[0] != "module"@[0] && "system"@[0] != "resource"@[0] && "system"@[0] != "organization"@[0]);
    assert("tenant"@[0] != "module"@[0] && "tenant"@[0] != "resource"@[0] && "tenant"@[0] != "organization"@[0]);
    assert("module"@[0] != "resource"@[0] && "module"@[0] != "organization"@[0] && "resource"@[0] != "organization"@[0]);
    assert("success"@[0] != "failure"@[0]);
    reveal_strlit("inactive");
    reveal_strlit("expired");
    assert("active"@[0] != "expired"@[0] && "active"@[0] != "inactive"@[0] && "expired"@[0] != "inactive"@[0]);
}

impl RoleType {
    /// The stored name of this role type.
    pub fn as_str(&self) -> (r: &'static str)
        ensures
            r@ == role_type_name(*self),
    {
        match self {
            RoleType::SuperAdmin => "super_admin",
            RoleType::Normal => "normal",
            RoleType::SubsystemAdmin => "subsystem_admin",
            RoleType::Custom => "custom",
        }
    }
}

impl TenantStatus {
    /// The stored name of this status.
    pub fn as_str(&self) -> (r: &'static str)
        ensures
            r@ == tenant_status_name(*self),
    {
        match self {
            TenantStatus::Active => "active",
            TenantStatus::Disabled => "disabled",
            TenantStatus::Archived => "archived",
        }
    }
}

impl GrantStatus {
    /// The stored name of this status.
    pub fn as_str(&self) -> (r: &'static str)
        ensures
            r@ == grant_status_name(*self),
    {
        match self {
            GrantStatus::Active => "active",
            GrantStatus::Inactive => "inactive",
            GrantStatus::Expired => "expired",
        }
    }
}

impl AuthMode {
    /// The stored name of this mode.
    pub fn as_str(&self) -> (r: &'static str)
        ensures
            r@ == auth_mode_name(*self),
    {
        match self {
            AuthMode::Jwt => "jwt",
            AuthMode::AuthorizationCode => "authorization_code",
        }
    }
}

impl AuditResult {
    /// The stored name of this result.
    pub fn as_str(&self) -> (r: &'static str)
        ensures
            r@ == audit_result_name(*self),
    {
        match self {
            AuditResult::Success => "success",
            AuditResult::Failure => "failure",
        }
    }
}

impl UserStatus {
    /// The stored name of this status.
    pub fn as_str(&self) -> (r: &'static str)
        ensures
            r@ == user_status_name(*self),
    {
        match self {
            UserStatus::Active => "active",
            UserStatus::Disabled => "disabled",
            UserStatus::Pending => "pending",
            UserStatus::Archived => "archived",
        }
    }
}

impl SystemStatus {
    /// The stored name of this status.
    pub fn as_str(&self) -> (r: &'static str)
        ensures
            r@ == system_status_name(*self),
    {
        match self {
            SystemStatus::Active => "active",
            SystemStatus::Disabled => "disabled",
            SystemStatus::Onboarding => "onboarding",
            SystemStatus::Maintenance => "maintenance",
        }
    }
}

impl SubjectType {
    /// The stored name of this subject type.
    pub fn as_str(&self) -> (r: &'static str)
        ensures
            r@ == subject_type_name(*self),
    {
        match self {
            SubjectType::User => "user",
            SubjectType::Role => "role",
            SubjectType::Tenant => "tenant",
        }
    }
}

impl AdminType {
    /// The stored name of this administrator level.
    pub fn as_str(&self) -> (r: &'static str)
        ensures
            r@ == admin_type_name(*self),
    {
        match self {
            AdminType::System => "system",
            AdminType::Tenant => "tenant",
            AdminType::Module => "module",
            AdminType::Resource => "resource",
            AdminType::Organization => "organization",
        }
    }
}

/// Abstract value of an administrative scope.
pub struct ScopeView {
    pub scope_type: Seq<char>,
    pub scope_code: Seq<char>,
}

/// A scope inside which a sub-administrator may act, such as a module or a resource.
#[derive(Clone, Debug)]
pub struct AdminScope {
    pub scope_type: String,
    pub scope_code: String,
}

impl DeepView for AdminScope {
    type V = ScopeView;

    open spec fn deep_view(&self) -> ScopeView {
        ScopeView { scope_type: self.scope_type@, scope_code: self.scope_code@ }
    }
}

impl AdminScope {
    /// A copy of this scope.
    pub fn duplicate(&self) -> (r: AdminScope)
        ensures
            r.deep_view() == self.deep_view(),
    {
        AdminScope { scope_type: self.scope_type.clone(), scope_code: self.scope_code.clone() }
    }
}

/// The key by which scopes are told apart: the pair of scope type and scope code.
pub open spec fn scope_key(s: ScopeView) -> (Seq<char>, Seq<char>) {
    (s.scope_type, s.scope_code)
}

/// The text `type:code` under which a scope is shown.
pub open spec fn scope_text(s: ScopeView) -> Seq<char> {
    s.scope_type + ":"@ + s.scope_code
}

} // verus!
