//! Checks on the records that people create: accounts, tenants, roles, systems,
//! profiles and avatars, and the portal's first super administrator.

use vstd::prelude::*;
use crate::model::{Id, RoleType, UserStatus};
use crate::error::AppError;
use crate::ids::{parse_id, uuid_parse, id_text, id_text_spec};
use crate::text::{chars_of, string_of, owned, trim, trim_str, is_ws, is_whitespace, find_char, find_first, lemma_find_char, signed_decimal, signed_decimal_chars};

verus! {

/// All fields, trimmed, are non-empty.
pub open spec fn all_filled(fields: Seq<Seq<char>>) -> bool {
    forall|i: int| 0 <= i < fields.len() ==> trim(#[trigger] fields[i]).len() > 0
}

/// Trims required fields; where one is empty the request fails with `message`.
pub fn require_filled(fields: &Vec<String>, message: &str) -> (r: Result<Vec<String>, AppError>)
    ensures
        all_filled(fields.deep_view()) ==> (r matches Ok(v) && v.len() == fields.len() && forall|i: int|
            0 <= i < fields.len() ==> (#[trigger] v.deep_view()[i]) == trim(fields.deep_view()[i])),
        !all_filled(fields.deep_view()) ==> (r matches Err(AppError::ValidationFailed(m)) && m@ == message@),
{
    let mut out: Vec<String> = Vec::new();
    let mut i: usize = 0;
    while i < fields.len()
        invariant
            i <= fields.len(),
            out.len() == i,
            forall|j: int| 0 <= j < i ==> (#[trigger] out.deep_view()[j]) == trim(fields.deep_view()[j]),
            forall|j: int| 0 <= j < i ==> trim(#[trigger] fields.deep_view()[j]).len() > 0,
        decreases fields.len() - i,
    {
        let t = trim_str(fields[i].as_str());
        let tc = chars_of(t.as_str());
        if tc.len() == 0 {
            assert(!all_filled(fields.deep_view())) by {
                assert(trim(fields.deep_view()[i as int]).len() == 0);
            }
            return Err(AppError::validation(message));
        }
        let ghost prev = out.deep_view();
        out.push(t);
        assert(out.deep_view() =~= prev.push(trim(fields.deep_view()[i as int])));
        i = i + 1;
    }
    Ok(out)
}

/// The first super administrator needs a username, a display name and a password of
/// at least 8 bytes, all trimmed.
pub open spec fn bootstrap_ok(username: Seq<char>, display_name: Seq<char>, password: Seq<char>) -> bool {
    trim(username).len() > 0 && trim(display_name).len() > 0
        && vstd::utf8::encode_utf8(trim(password)).len() >= 8
}

/// Checks the request that creates the first super administrator and gives the trimmed
/// username, display name and password.
pub fn validate_bootstrap(username: &str, display_name: &str, password: &str) -> (r: Result<(String, String, String), AppError>)
    ensures
        bootstrap_ok(username@, display_name@, password@) ==> (r matches Ok((u, d, p)) && u@ == trim(username@)
            && d@ == trim(display_name@) && p@ == trim(password@)),
        !bootstrap_ok(username@, display_name@, password@) ==> (r matches Err(AppError::ValidationFailed(m))
            && m@ == "USERNAME_DISPLAY_NAME_AND_PASSWORD_REQUIRED"@),
{
    let u = trim_str(username);
    let d = trim_str(display_name);
    let p = trim_str(password);
    let uc = chars_of(u.as_str());
    let dc = chars_of(d.as_str());
    let pl = p.as_str().as_bytes().len();
    if uc.len() == 0 || dc.len() == 0 || pl < 8 {
        return Err(AppError::validation("USERNAME_DISPLAY_NAME_AND_PASSWORD_REQUIRED"));
    }
    Ok((u, d, p))
}

/// What the setup status reports: whether the portal has an active super
/// administrator, and so whether the first one is still to be created.
#[derive(Debug)]
pub struct SetupStatus {
    pub initialized: bool,
    pub needs_setup: bool,
}

/// The setup status, as (initialized, needs setup), given whether an active super
/// administrator exists.
pub open spec fn setup_status_spec(has_super_admin: bool) -> (bool, bool) {
    (has_super_admin, !has_super_admin)
}

/// The setup status, given whether an active super administrator exists.
pub fn setup_status(has_super_admin: bool) -> (r: SetupStatus)
    ensures
        (r.initialized, r.needs_setup) == setup_status_spec(has_super_admin),
{
    SetupStatus { initialized: has_super_admin, needs_setup: !has_super_admin }
}

/// How a request to create the first super administrator is answered.
pub enum BootstrapVerdict {
    AlreadyInitialized,
    MissingFields,
    Proceed,
}

/// A bootstrap is refused once an active super administrator exists, whatever it
/// holds; otherwise it needs its fields.
pub open spec fn bootstrap_verdict(
    has_super_admin: bool,
    username: Seq<char>,
    display_name: Seq<char>,
    password: Seq<char>,
) -> BootstrapVerdict {
    if has_super_admin {
        BootstrapVerdict::AlreadyInitialized
    } else if !bootstrap_ok(username, display_name, password) {
        BootstrapVerdict::MissingFields
    } else {
        BootstrapVerdict::Proceed
    }
}

/// Checks a request to create the first super administrator, given whether an active
/// super administrator exists, and gives its trimmed username, display name and password.
pub fn check_bootstrap(
    has_super_admin: bool,
    username: &str,
    display_name: &str,
    password: &str,
) -> (r: Result<(String, String, String), AppError>)
    ensures
        match bootstrap_verdict(has_super_admin, username@, display_name@, password@) {
            BootstrapVerdict::AlreadyInitialized => r matches Err(AppError::Conflict(m))
                && m@ == "PORTAL_ALREADY_INITIALIZED"@,
            BootstrapVerdict::MissingFields => r matches Err(AppError::ValidationFailed(m))
                && m@ == "USERNAME_DISPLAY_NAME_AND_PASSWORD_REQUIRED"@,
            BootstrapVerdict::Proceed => r matches Ok((u, d, p)) && u@ == trim(username@)
                && d@ == trim(display_name@) && p@ == trim(password@),
        },
{
    if has_super_admin {
        return Err(AppError::conflict("PORTAL_ALREADY_INITIALIZED"));
    }
    validate_bootstrap(username, display_name, password)
}

/// The portal is set up once: as soon as an active super administrator exists, as a
/// successful bootstrap leaves one, the status reports it initialized with nothing to
/// set up, and every later bootstrap request is refused as already initialized.
pub proof fn law_bootstrap_only_once(username: Seq<char>, display_name: Seq<char>, password: Seq<char>)
    ensures
        setup_status_spec(true) == (true, false),
        bootstrap_verdict(true, username, display_name, password) == BootstrapVerdict::AlreadyInitialized,
{
}

/// An optional e-mail trimmed, and dropped where empty.
pub fn optional_trimmed(value: &Option<String>) -> (r: Option<String>)
    ensures
        match value {
            Some(v) => if trim(v@).len() > 0 { r matches Some(t) && t@ == trim(v@) } else { r is None },
            None => r is None,
        },
{
    match value {
        Some(v) => {
            let t = trim_str(v.as_str());
            let tc = chars_of(t.as_str());
            if tc.len() > 0 {
                Some(t)
            } else {
                None
            }
        },
        None => None,
    }
}

/// The name of the default tenant: the one given, trimmed, where it is not empty;
/// `默认租户` otherwise.
pub fn default_tenant_name(tenant_name: &Option<String>) -> (r: String)
    ensures
        r@ == match tenant_name {
            Some(n) => if trim(n@).len() > 0 { trim(n@) } else { "默认租户"@ },
            None => "默认租户"@,
        },
{
    match optional_trimmed(tenant_name) {
        Some(t) => t,
        None => owned("默认租户"),
    }
}

/// A built-in role: code, display name and kind.
#[derive(Debug)]
pub struct BuiltinRole {
    pub code: String,
    pub name: String,
    pub role_type: RoleType,
}

/// The roles that every portal has.
pub fn builtin_roles() -> (r: Vec<BuiltinRole>)
    ensures
        r.len() == 5,
        r[0].code@ == "super-admin"@ && r[0].name@ == "超级管理员"@ && r[0].role_type == RoleType::SuperAdmin,
        r[1].code@ == "user"@ && r[1].name@ == "普通用户"@ && r[1].role_type == RoleType::Normal,
        r[2].code@ == "subsystem-admin"@ && r[2].name@ == "子系统管理员"@ && r[2].role_type == RoleType::SubsystemAdmin,
        r[3].code@ == "audit-viewer"@ && r[3].name@ == "审计查看员"@ && r[3].role_type == RoleType::Custom,
        r[4].code@ == "system-integrator"@ && r[4].name@ == "系统集成员"@ && r[4].role_type == RoleType::Custom,
{
    let mut r: Vec<BuiltinRole> = Vec::new();
    r.push(BuiltinRole { code: owned("super-admin"), name: owned("超级管理员"), role_type: RoleType::SuperAdmin });
    r.push(BuiltinRole { code: owned("user"), name: owned("普通用户"), role_type: RoleType::Normal });
    r.push(BuiltinRole { code: owned("subsystem-admin"), name: owned("子系统管理员"), role_type: RoleType::SubsystemAdmin });
    r.push(BuiltinRole { code: owned("audit-viewer"), name: owned("审计查看员"), role_type: RoleType::Custom });
    r.push(BuiltinRole { code: owned("system-integrator"), name: owned("系统集成员"), role_type: RoleType::Custom });
    r
}

/// A new role's code must be unused; a built-in role's code is refused as such.
pub fn check_role_code(existing_is_builtin: Option<bool>) -> (r: Result<(), AppError>)
    ensures
        match existing_is_builtin {
            Some(true) => r matches Err(AppError::Conflict(m)) && m@ == "BUILTIN_ROLE_EXISTS"@,
            Some(false) => r matches Err(AppError::Conflict(m)) && m@ == "CODE_EXISTS"@,
            None => r is Ok,
        },
{
    match existing_is_builtin {
        Some(true) => Err(AppError::conflict("BUILTIN_ROLE_EXISTS")),
        Some(false) => Err(AppError::conflict("CODE_EXISTS")),
        None => Ok(()),
    }
}

/// A change of role holders may not take away the last super administrator: `before`
/// and `after` count the active accounts holding the super-admin role before and after
/// the change; a change from some to none is refused with `LAST_SUPER_ADMIN`.
pub fn check_super_admin_kept(before: i64, after: i64) -> (r: Result<(), AppError>)
    ensures
        before > 0 && after <= 0 ==> (r matches Err(AppError::Conflict(m)) && m@ == "LAST_SUPER_ADMIN"@),
        !(before > 0 && after <= 0) ==> r is Ok,
{
    if before > 0 && after <= 0 {
        Err(AppError::conflict("LAST_SUPER_ADMIN"))
    } else {
        Ok(())
    }
}

/// A role can be deleted only when it is not built in and has no members.
pub fn check_role_deletable(is_builtin: bool, member_count: i64) -> (r: Result<(), AppError>)
    ensures
        is_builtin ==> (r matches Err(AppError::PermissionDenied)),
        !is_builtin && member_count > 0 ==> (r matches Err(AppError::Conflict(m)) && m@ == "ROLE_HAS_MEMBERS"@),
        !is_builtin && member_count <= 0 ==> r is Ok,
{
    if is_builtin {
        Err(AppError::PermissionDenied)
    } else if member_count > 0 {
        Err(AppError::conflict("ROLE_HAS_MEMBERS"))
    } else {
        Ok(())
    }
}

/// A display name given in a profile update may not be blank.
pub fn check_display_name(display_name: &Option<String>) -> (r: Result<(), AppError>)
    ensures
        match display_name {
            Some(n) => if trim(n@).len() == 0 {
                r matches Err(AppError::ValidationFailed(m)) && m@ == "display_name cannot be empty"@
            } else {
                r is Ok
            },
            None => r is Ok,
        },
{
    match display_name {
        Some(n) => {
            let t = trim_str(n.as_str());
            let tc = chars_of(t.as_str());
            if tc.len() == 0 {
                Err(AppError::validation("display_name cannot be empty"))
            } else {
                Ok(())
            }
        },
        None => Ok(()),
    }
}

/// The password of a new account: the one given, else `portal123`.
pub fn initial_password(password: &Option<String>) -> (r: String)
    ensures
        r@ == match password {
            Some(p) => p@,
            None => "portal123"@,
        },
{
    match password {
        Some(p) => p.clone(),
        None => owned("portal123"),
    }
}

/// A new account's default tenant: the first tenant named, where it is a UUID.
pub fn first_tenant_id(tenant_ids: &Vec<String>) -> (r: Option<Id>)
    ensures
        r == (if tenant_ids.len() > 0 { uuid_parse(tenant_ids[0]@) } else { None }),
{
    if tenant_ids.len() > 0 {
        parse_id(tenant_ids[0].as_str())
    } else {
        None
    }
}

/// The user and system of a new sub-administrator grant, and its tenant where one is
/// named and is a UUID; an unreadable user or system is reported as not found.
pub fn parse_grant_target(user_id: &str, system_id: &str, tenant_id: &Option<String>) -> (r: Result<(Id, Id, Option<Id>), AppError>)
    ensures
        match (uuid_parse(user_id@), uuid_parse(system_id@)) {
            (None, _) => r matches Err(AppError::ValidationFailed(m)) && m@ == "USER_NOT_FOUND"@,
            (Some(_), None) => r matches Err(AppError::ValidationFailed(m)) && m@ == "SYSTEM_NOT_FOUND"@,
            (Some(u), Some(s)) => r matches Ok((a, b, t)) && a == u && b == s && t == match tenant_id {
                Some(x) => uuid_parse(x@),
                None => None,
            },
        },
{
    let u = match parse_id(user_id) {
        Some(u) => u,
        None => return Err(AppError::validation("USER_NOT_FOUND")),
    };
    let s = match parse_id(system_id) {
        Some(s) => s,
        None => return Err(AppError::validation("SYSTEM_NOT_FOUND")),
    };
    let t = match tenant_id {
        Some(x) => parse_id(x.as_str()),
        None => None,
    };
    Ok((u, s, t))
}

/// Who may receive a sub-administrator grant, checked in this order: an active account,
/// an existing subsystem and, where the grant is for one tenant, an active membership
/// of the account in it.
pub fn check_grant_eligibility(
    user_status: Option<UserStatus>,
    system_exists: bool,
    tenant_member_active: Option<bool>,
) -> (r: Result<(), AppError>)
    ensures
        user_status != Some(UserStatus::Active) ==> (r matches Err(AppError::ValidationFailed(m))
            && m@ == "USER_NOT_FOUND"@),
        user_status == Some(UserStatus::Active) && !system_exists ==> (r matches Err(
            AppError::ValidationFailed(m),
        ) && m@ == "SYSTEM_NOT_FOUND"@),
        user_status == Some(UserStatus::Active) && system_exists && tenant_member_active == Some(false) ==> (
        r matches Err(AppError::ValidationFailed(m)) && m@ == "TENANT_MEMBER_NOT_FOUND"@),
        user_status == Some(UserStatus::Active) && system_exists && tenant_member_active != Some(false)
            ==> r is Ok,
{
    match user_status {
        Some(UserStatus::Active) => {},
        _ => return Err(AppError::validation("USER_NOT_FOUND")),
    }
    if !system_exists {
        return Err(AppError::validation("SYSTEM_NOT_FOUND"));
    }
    match tenant_member_active {
        Some(false) => Err(AppError::validation("TENANT_MEMBER_NOT_FOUND")),
        _ => Ok(()),
    }
}

// ---------------------------------------------------------------------------
// Avatars
// ---------------------------------------------------------------------------

/// Where a new avatar comes from.
#[derive(Clone, Copy, Debug, PartialEq, Eq, Structural)]
pub enum AvatarSource {
    Base64,
    Url,
}

/// An avatar comes from exactly one of an inline image and a URL.
pub fn avatar_source(base64: &Option<String>, url: &Option<String>) -> (r: Result<AvatarSource, AppError>)
    ensures
        base64.is_some() && url.is_none() ==> r == Ok::<AvatarSource, AppError>(AvatarSource::Base64),
        base64.is_none() && url.is_some() ==> r == Ok::<AvatarSource, AppError>(AvatarSource::Url),
        base64.is_some() == url.is_some() ==> (r matches Err(AppError::ValidationFailed(m)) && m@
            == "provide either base64 or url"@),
{
    match (base64, url) {
        (Some(_), None) => Ok(AvatarSource::Base64),
        (None, Some(_)) => Ok(AvatarSource::Url),
        _ => Err(AppError::validation("provide either base64 or url")),
    }
}

/// `s` without white space.
pub open spec fn drop_ws(s: Seq<char>) -> Seq<char>
    decreases s.len(),
{
    if s.len() == 0 {
        s
    } else if is_ws(s.last()) {
        drop_ws(s.drop_last())
    } else {
        drop_ws(s.drop_last()).push(s.last())
    }
}

/// The base64 text of an inline image: its white space removed, and only what follows
/// the first comma where there is one (as after a `data:` prefix).
pub open spec fn avatar_payload_spec(s: Seq<char>) -> Seq<char> {
    let n = drop_ws(s);
    let i = find_char(n, ',');
    if i >= 0 {
        n.skip(i + 1)
    } else {
        n
    }
}

/// The base64 text of an inline image.
pub fn avatar_payload(s: &str) -> (r: String)
    ensures
        r@ == avatar_payload_spec(s@),
{
    let cs = chars_of(s);
    let mut n: Vec<char> = Vec::new();
    let mut i: usize = 0;
    while i < cs.len()
        invariant
            i <= cs.len(),
            n@ == drop_ws(cs@.take(i as int)),
        decreases cs.len() - i,
    {
        assert(cs@.take(i + 1).drop_last() =~= cs@.take(i as int));
        assert(cs@.take(i + 1).last() == cs@[i as int]);
        if !is_whitespace(cs[i]) {
            n.push(cs[i]);
        }
        i = i + 1;
    }
    assert(cs@.take(cs.len() as int) =~= cs@);
    proof {
        lemma_find_char(n@, ',');
    }
    match find_first(n.as_slice(), ',') {
        Some(k) => {
            assert(k < n.len());
            let rest = crate::text::slice_chars(n.as_slice(), k + 1, n.len());
            assert(rest@ =~= n@.skip(k + 1));
            string_of(rest.as_slice())
        },
        None => string_of(n.as_slice()),
    }
}

/// The `base64` crate's decoding error.
#[verifier::external_type_specification]
#[verifier::external_body]
pub struct ExBase64DecodeError(base64::DecodeError);

/// The bytes that the standard base64 engine (`base64::engine::general_purpose::STANDARD`)
/// decodes from a text, if it accepts it.
pub uninterp spec fn base64_decode(s: Seq<char>) -> Option<Seq<u8>>;

/// Decodes standard base64 with padding; the result is named by `base64_decode`.
#[verifier::external_body]
fn base64_standard_decode(s: &str) -> (r: Result<Vec<u8>, base64::DecodeError>)
    ensures
        match r {
            Ok(b) => base64_decode(s@) == Some(b@),
            Err(_) => base64_decode(s@).is_none(),
        },
{
    base64::Engine::decode(&base64::engine::general_purpose::STANDARD, s)
}

/// The bytes of an inline avatar image; an undecodable image fails with
/// `INVALID_BASE64`.
pub fn decode_base64_image(s: &str) -> (r: Result<Vec<u8>, AppError>)
    ensures
        match base64_decode(avatar_payload_spec(s@)) {
            None => r matches Err(AppError::ValidationFailed(m)) && m@ == "INVALID_BASE64"@,
            Some(b) => r matches Ok(v) && v@ == b,
        },
{
    let payload = avatar_payload(s);
    match base64_standard_decode(payload.as_str()) {
        Err(_) => Err(AppError::validation("INVALID_BASE64")),
        Ok(b) => Ok(b),
    }
}

/// The bytes of an avatar fetched from a URL; a failed fetch is `FETCH_AVATAR_FAILED`.
pub fn fetched_avatar(fetched: Option<Vec<u8>>) -> (r: Result<Vec<u8>, AppError>)
    ensures
        match fetched {
            None => r matches Err(AppError::ValidationFailed(m)) && m@ == "FETCH_AVATAR_FAILED"@,
            Some(b) => r matches Ok(v) && v@ == b@,
        },
{
    match fetched {
        None => Err(AppError::validation("FETCH_AVATAR_FAILED")),
        Some(b) => Ok(b),
    }
}

/// An avatar is stored only where it has some bytes; an empty one is `EMPTY_AVATAR`.
pub fn accept_avatar(bytes: Vec<u8>) -> (r: Result<Vec<u8>, AppError>)
    ensures
        bytes.len() == 0 ==> (r matches Err(AppError::ValidationFailed(m)) && m@ == "EMPTY_AVATAR"@),
        bytes.len() > 0 ==> (r matches Ok(v) && v@ == bytes@),
{
    if bytes.len() == 0 {
        Err(AppError::validation("EMPTY_AVATAR"))
    } else {
        Ok(bytes)
    }
}

/// A profile's new default tenant must be one of the user's active memberships:
/// `member_active` tells whether it is, where one is asked for.
pub fn check_default_tenant(member_active: Option<bool>) -> (r: Result<(), AppError>)
    ensures
        member_active == Some(false) ==> (r matches Err(AppError::ValidationFailed(m))
            && m@ == "invalid default tenant"@),
        member_active != Some(false) ==> r is Ok,
{
    match member_active {
        Some(false) => Err(AppError::validation("invalid default tenant")),
        _ => Ok(()),
    }
}

/// The file name of a user's avatar.
pub fn avatar_file_name(user_id: Id) -> (r: String)
    ensures
        r@ == id_text_spec(user_id) + ".png"@,
{
    crate::text::concat(id_text(user_id).as_str(), ".png")
}

/// The address of a freshly stored avatar: `/avatars/<user id>.png?t=<milliseconds>`,
/// which changes with every upload.
pub fn avatar_url(user_id: Id, timestamp_millis: i64) -> (r: String)
    ensures
        r@ == "/avatars/"@ + id_text_spec(user_id) + ".png"@ + "?t="@ + signed_decimal(timestamp_millis as int),
{
    let mut out = chars_of("/avatars/");
    let mut f = chars_of(avatar_file_name(user_id).as_str());
    out.append(&mut f);
    let mut q = chars_of("?t=");
    out.append(&mut q);
    let mut d = signed_decimal_chars(timestamp_millis);
    out.append(&mut d);
    string_of(out.as_slice())
}

} // verus!
