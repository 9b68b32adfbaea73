//! Sessions, passwords and one-time subsystem tickets: how a request proves who
//! makes it, and how a ticket issued for a subsystem is redeemed.

use vstd::prelude::*;
use crate::model::{Id, UserStatus};
use crate::error::AppError;
use crate::ids::{parse_id, uuid_parse, id_text, id_text_spec, lemma_hex_fixed_len};
use crate::text::{
    chars_of, string_of, trim, trim_chars, starts_with, chars_start_with, split_all, split_chars,
    split_once, split_once_chars, slice_chars, owned, text_eq, hex_lower, hex_fixed, find_char, lemma_find_char,
    is_ws, trim_start, trim_end, digit_char,
};

verus! {

// ---------------------------------------------------------------------------
// Outside functions
// ---------------------------------------------------------------------------

/// The `bcrypt` crate's error.
#[verifier::external_type_specification]
#[verifier::external_body]
pub struct ExBcryptError(bcrypt::BcryptError);

/// What `bcrypt::verify` answers for a password and a stored hash: `None` where the
/// hash cannot be read, otherwise whether the password matches.
pub uninterp spec fn bcrypt_check(password: Seq<char>, hash: Seq<char>) -> Option<bool>;

/// Checks a password against a bcrypt hash with `bcrypt::verify`; the answer is named by
/// `bcrypt_check`.
#[verifier::external_body]
fn bcrypt_verify(password: &str, hash: &str) -> (r: Result<bool, bcrypt::BcryptError>)
    ensures
        match r {
            Ok(b) => bcrypt_check(password@, hash@) == Some(b),
            Err(_) => bcrypt_check(password@, hash@).is_none(),
        },
{
    bcrypt::verify(password, hash)
}

/// The head `$2b$<cost in two digits>$` of a bcrypt hash made at `cost` (4 to 31).
pub open spec fn bcrypt_prefix(cost: u32) -> Seq<char> {
    "$2b$"@ + seq![digit_char((cost / 10) as nat), digit_char((cost % 10) as nat)] + "$"@
}

/// Hashes a password with `bcrypt::hash` at the given cost under a fresh random salt.
/// The salt and the digest are left unsaid; what is stated is that the hash begins with
/// `$2b$`, the cost in two digits and `$` (bcrypt refuses costs outside 4 to 31), and
/// that `bcrypt::verify` accepts the same password against it, as it re-hashes the
/// password under the cost and salt written in the hash and compares.
#[verifier::external_body]
fn bcrypt_hash(password: &str, cost: u32) -> (r: Result<String, bcrypt::BcryptError>)
    ensures
        r matches Ok(h) ==> bcrypt_check(password@, h@) == Some(true),
        r matches Ok(h) ==> h@.len() >= 7 && h@.subrange(0, 7) == bcrypt_prefix(cost),
{
    bcrypt::hash(password, cost)
}

/// A random byte from `rand::thread_rng`.
#[verifier::external_body]
pub(crate) fn random_byte() -> (r: u8) {
    rand::Rng::gen::<u8>(&mut rand::thread_rng())
}

/// A random position below `n`, drawn with `rand::Rng::gen_range(0..n)`, which
/// returns a value of the range and panics on an empty one.
#[verifier::external_body]
pub(crate) fn random_index(n: usize) -> (r: usize)
    requires
        n > 0,
    ensures
        r < n,
{
    rand::Rng::gen_range(&mut rand::thread_rng(), 0..n)
}

/// `bytes` in lowercase hexadecimal, two digits per byte.
pub open spec fn hex_encode_spec(bytes: Seq<u8>) -> Seq<char>
    decreases bytes.len(),
{
    if bytes.len() == 0 {
        Seq::empty()
    } else {
        hex_encode_spec(bytes.drop_last()) + seq![
            hex_lower((bytes.last() / 16) as nat),
            hex_lower((bytes.last() % 16) as nat),
        ]
    }
}

/// Encodes bytes with `hex::encode`, which writes each byte as two lowercase hexadecimal
/// digits, high nibble first.
#[verifier::external_body]
fn hex_encode(bytes: &[u8]) -> (r: String)
    ensures
        r@ == hex_encode_spec(bytes@),
{
    hex::encode(bytes)
}

// ---------------------------------------------------------------------------
// Passwords and session secrets
// ---------------------------------------------------------------------------

/// The bcrypt cost for account passwords.
pub const DEFAULT_COST: u32 = 12;

/// Hashes an account password at cost 12; a failure of the hashing is an internal
/// error. The hash begins `$2b$12$` and the password checks against it.
pub fn hash_password(password: &str) -> (r: Result<String, AppError>)
    ensures
        r matches Err(e) ==> e matches AppError::Internal(_),
        r matches Ok(h) ==> bcrypt_check(password@, h@) == Some(true),
        r matches Ok(h) ==> h@.len() >= 7 && h@.subrange(0, 7) == "$2b$12$"@,
{
    proof {
        reveal_strlit("$2b$12$");
        reveal_strlit("$2b$");
        reveal_strlit("$");
        assert(bcrypt_prefix(DEFAULT_COST) =~= "$2b$12$"@);
    }
    match bcrypt_hash(password, DEFAULT_COST) {
        Ok(h) => Ok(h),
        Err(_) => Err(AppError::Internal(owned("hash error"))),
    }
}

/// Hashes a session or ticket secret at cost 10; the hash begins `$2b$10$` and the
/// secret checks against it.
pub fn hash_secret(secret: &str) -> (r: Result<String, AppError>)
    ensures
        r matches Err(e) ==> e matches AppError::Internal(_),
        r matches Ok(h) ==> bcrypt_check(secret@, h@) == Some(true),
        r matches Ok(h) ==> h@.len() >= 7 && h@.subrange(0, 7) == "$2b$10$"@,
{
    proof {
        reveal_strlit("$2b$10$");
        reveal_strlit("$2b$");
        reveal_strlit("$");
        assert(bcrypt_prefix(10) =~= "$2b$10$"@);
    }
    match bcrypt_hash(secret, 10) {
        Ok(h) => Ok(h),
        Err(_) => Err(AppError::Internal(owned("secret hash error"))),
    }
}

/// A new session secret: 48 random bytes in lowercase hexadecimal.
pub fn generate_session_token() -> (r: String)
    ensures
        exists|b: Seq<u8>| b.len() == 48 && r@ == hex_encode_spec(b),
{
    let mut bytes: Vec<u8> = Vec::new();
    let mut i: usize = 0;
    while i < 48
        invariant
            i <= 48,
            bytes.len() == i,
        decreases 48 - i,
    {
        bytes.push(random_byte());
        i = i + 1;
    }
    let r = hex_encode(bytes.as_slice());
    assert(bytes@.len() == 48 && r@ == hex_encode_spec(bytes@));
    r
}

/// How long a new session lives: the remember-me lifetime when asked for, else the
/// ordinary one.
pub fn session_ttl(remember_me: bool, ttl_seconds: i64, remember_ttl_seconds: i64) -> (r: i64)
    ensures
        r == (if remember_me { remember_ttl_seconds } else { ttl_seconds }),
{
    if remember_me {
        remember_ttl_seconds
    } else {
        ttl_seconds
    }
}

// ---------------------------------------------------------------------------
// Session cookies
// ---------------------------------------------------------------------------

/// The value of the first cookie in `parts` named by `prefix` (the name and `=`), each
/// part trimmed of white space.
pub open spec fn cookie_value(parts: Seq<Seq<char>>, prefix: Seq<char>) -> Option<Seq<char>>
    decreases parts.len(),
{
    if parts.len() == 0 {
        None
    } else {
        match cookie_value(parts.drop_last(), prefix) {
            Some(v) => Some(v),
            None => if starts_with(trim(parts.last()), prefix) {
                Some(trim(parts.last()).skip(prefix.len() as int))
            } else {
                None
            },
        }
    }
}

/// The session named by a `Cookie` header: the cookie `name=session_id:secret`,
/// whose session id must be a UUID.
pub open spec fn session_cookie_spec(header: Seq<char>, name: Seq<char>) -> Option<(Id, Seq<char>)> {
    match cookie_value(split_all(header, ';'), name + seq!['=']) {
        None => None,
        Some(token) => match split_once(token, ':') {
            None => None,
            Some((id_text, secret)) => match uuid_parse(id_text) {
                None => None,
                Some(id) => Some((id, secret)),
            },
        },
    }
}

fn find_cookie(parts: &Vec<Vec<char>>, prefix: &[char]) -> (r: Option<Vec<char>>)
    ensures
        match r {
            Some(v) => cookie_value(parts.deep_view(), prefix@) == Some(v@),
            None => cookie_value(parts.deep_view(), prefix@).is_none(),
        },
{
    let mut i: usize = 0;
    while i < parts.len()
        invariant
            i <= parts.len(),
            cookie_value(parts.deep_view().take(i as int), prefix@).is_none(),
        decreases parts.len() - i,
    {
        let ghost pre = parts.deep_view().take(i as int);
        assert(parts.deep_view().take(i + 1).drop_last() =~= pre);
        assert(parts.deep_view().take(i + 1).last() == parts.deep_view()[i as int]);
        assert(parts[i as int]@ =~= parts.deep_view()[i as int]);
        let t = trim_chars(parts[i].as_slice());
        if chars_start_with(t.as_slice(), prefix) {
            let v = slice_chars(t.as_slice(), prefix.len(), t.len());
            assert(v@ =~= t@.skip(prefix@.len() as int));
            proof {
                lemma_cookie_value_prefix(parts.deep_view(), prefix@, i as int);
            }
            return Some(v);
        }
        i = i + 1;
    }
    assert(parts.deep_view().take(parts.len() as int) =~= parts.deep_view());
    None
}

/// Once a prefix of the parts has a cookie value, extending it does not change it.
proof fn lemma_cookie_value_prefix(parts: Seq<Seq<char>>, prefix: Seq<char>, i: int)
    requires
        0 <= i < parts.len(),
        cookie_value(parts.take(i + 1), prefix).is_some(),
    ensures
        cookie_value(parts, prefix) == cookie_value(parts.take(i + 1), prefix),
    decreases parts.len(),
{
    if parts.len() > i + 1 {
        assert(parts.drop_last().take(i + 1) =~= parts.take(i + 1));
        lemma_cookie_value_prefix(parts.drop_last(), prefix, i);
    } else {
        assert(parts.take(i + 1) =~= parts);
    }
}

/// Reads the session id and secret from a `Cookie` header; any failure means the
/// request is not authenticated.
pub fn parse_session_cookie(header: &str, cookie_name: &str) -> (r: Result<(Id, String), AppError>)
    ensures
        match session_cookie_spec(header@, cookie_name@) {
            Some((id, secret)) => r matches Ok((i, s)) && i == id && s@ == secret,
            None => r matches Err(AppError::AuthRequired),
        },
        forall|n: Id, secret: Seq<char>| cookie_value(split_all(header@, ';'), cookie_name@ + seq!['='])
            == Some(#[trigger] (id_text_spec(n) + seq![':'] + secret)) ==> (r matches Ok((i, s)) && i == n && s@
            == secret),
{
    let hc = chars_of(header);
    let parts = split_chars(hc.as_slice(), ';');
    let mut prefix = chars_of(cookie_name);
    prefix.push('=');
    assert(prefix@ =~= cookie_name@ + seq!['=']);
    assert(hc@ == header@);
    let token = match find_cookie(&parts, prefix.as_slice()) {
        Some(t) => t,
        None => return Err(AppError::AuthRequired),
    };
    let (id_part, secret) = match split_once_chars(token.as_slice(), ':') {
        Some(p) => p,
        None => {
            proof {
                assert forall|n: Id, sec: Seq<char>| cookie_value(split_all(header@, ';'), cookie_name@ + seq!['='])
                    == Some(#[trigger] (id_text_spec(n) + seq![':'] + sec)) implies false by {
                    lemma_split_after_id(n, sec);
                }
            }
            return Err(AppError::AuthRequired);
        },
    };
    let id_str = string_of(id_part.as_slice());
    let parsed = parse_id(id_str.as_str());
    proof {
        assert forall|n: Id, sec: Seq<char>| cookie_value(split_all(header@, ';'), cookie_name@ + seq!['='])
            == Some(#[trigger] (id_text_spec(n) + seq![':'] + sec)) implies parsed == Some(n) && secret@ == sec by {
            lemma_split_after_id(n, sec);
        }
    }
    match parsed {
        Some(id) => Ok((id, string_of(secret.as_slice()))),
        None => Err(AppError::AuthRequired),
    }
}

/// What a session row must satisfy to authenticate a request, in this order: not
/// revoked nor expired, the secret matching its hash (an unreadable hash is an internal
/// error), and the account active.
pub open spec fn session_outcome(
    revoked: bool,
    expires_at: i64,
    now: i64,
    secret: Seq<char>,
    hash: Seq<char>,
    user_status: UserStatus,
) -> Result<(), AppError> {
    if revoked || expires_at < now {
        Err(AppError::AuthRequired)
    } else {
        match bcrypt_check(secret, hash) {
            None => Err(AppError::Internal(arbitrary())),
            Some(false) => Err(AppError::AuthRequired),
            Some(true) => if user_status != UserStatus::Active {
                Err(AppError::AuthRequired)
            } else {
                Ok(())
            },
        }
    }
}

/// The two outcomes agree up to the text of an internal error.
pub open spec fn same_outcome(a: Result<(), AppError>, b: Result<(), AppError>) -> bool {
    match (a, b) {
        (Ok(()), Ok(())) => true,
        (Err(AppError::Internal(_)), Err(AppError::Internal(_))) => true,
        (Err(x), Err(y)) => x == y,
        _ => false,
    }
}

/// Checks a stored session for a request; times are instants in the same unit.
pub fn validate_session(
    revoked: bool,
    expires_at: i64,
    now: i64,
    secret: &str,
    hash: &str,
    user_status: UserStatus,
) -> (r: Result<(), AppError>)
    ensures
        same_outcome(r, session_outcome(revoked, expires_at, now, secret@, hash@, user_status)),
{
    if revoked || expires_at < now {
        return Err(AppError::AuthRequired);
    }
    match bcrypt_verify(secret, hash) {
        Err(_) => Err(AppError::Internal(owned("bcrypt verify error"))),
        Ok(false) => Err(AppError::AuthRequired),
        Ok(true) => if user_status != UserStatus::Active {
            Err(AppError::AuthRequired)
        } else {
            Ok(())
        },
    }
}

/// The `Set-Cookie` value that opens a session.
pub fn session_cookie(cookie_name: &str, session_id: Id, secret: &str) -> (r: String)
    ensures
        r@ == cookie_name@ + seq!['='] + id_text_spec(session_id) + seq![':'] + secret@
            + "; Path=/; HttpOnly; SameSite=Lax"@,
{
    let mut out = chars_of(cookie_name);
    out.push('=');
    let mut idc = chars_of(id_text(session_id).as_str());
    out.append(&mut idc);
    out.push(':');
    let mut sc = chars_of(secret);
    out.append(&mut sc);
    let mut tail = chars_of("; Path=/; HttpOnly; SameSite=Lax");
    out.append(&mut tail);
    string_of(out.as_slice())
}

/// The `Set-Cookie` value that ends a session.
pub fn clear_session_cookie(cookie_name: &str) -> (r: String)
    ensures
        r@ == cookie_name@ + "=; Path=/; HttpOnly; SameSite=Lax; Max-Age=0"@,
{
    let mut out = chars_of(cookie_name);
    let mut tail = chars_of("=; Path=/; HttpOnly; SameSite=Lax; Max-Age=0");
    out.append(&mut tail);
    string_of(out.as_slice())
}

/// What ending a session takes: its row is marked revoked, the browser is told to drop
/// the cookie, and one audit event of this action is written for the user.
#[derive(Debug)]
pub struct LogoutPlan {
    pub revoke_session: bool,
    pub set_cookie: String,
    pub audit_action: String,
}

/// What ending the current session takes, for the session cookie `cookie_name`.
pub fn logout_plan(cookie_name: &str) -> (r: LogoutPlan)
    ensures
        r.revoke_session,
        r.set_cookie@ == cookie_name@ + "=; Path=/; HttpOnly; SameSite=Lax; Max-Age=0"@,
        r.audit_action@ == "logout.success"@,
{
    LogoutPlan {
        revoke_session: true,
        set_cookie: clear_session_cookie(cookie_name),
        audit_action: owned("logout.success"),
    }
}

/// Once a session is revoked, as logging out does, the same cookie no longer
/// authenticates: whatever its secret, its expiry, the time or the account, the request
/// is refused as needing authentication.
pub proof fn law_logged_out_session_refused(
    expires_at: i64,
    now: i64,
    secret: Seq<char>,
    hash: Seq<char>,
    status: UserStatus,
)
    ensures
        session_outcome(true, expires_at, now, secret, hash, status) == Err::<(), AppError>(AppError::AuthRequired),
{
}

// ---------------------------------------------------------------------------
// Login
// ---------------------------------------------------------------------------

/// What a person sends to log in.
#[derive(Debug)]
pub struct LoginRequest {
    pub username: String,
    pub password: String,
    pub remember_me: Option<bool>,
}

impl LoginRequest {
    /// Whether the session is to be remembered; not unless asked for.
    pub fn remembers(&self) -> (r: bool)
        ensures
            r == (self.remember_me == Some(true)),
    {
        match self.remember_me {
            Some(b) => b,
            None => false,
        }
    }
}

/// What a subsystem sends to redeem a ticket: the code `ticket_id:secret` and the
/// subsystem's own code.
#[derive(Debug)]
pub struct ExchangeTicketRequest {
    pub code: String,
    pub system_code: String,
}

/// The outcome of a login attempt for the account found under the username, if any:
/// the account must exist, have a password hash that the password matches (an
/// unreadable hash is an internal error) and be active.
pub open spec fn login_outcome(password: Seq<char>, account: Option<(Option<Seq<char>>, UserStatus)>) -> Result<(), AppError> {
    match account {
        None => Err(AppError::AuthRequired),
        Some((None, _)) => Err(AppError::AuthRequired),
        Some((Some(hash), status)) => match bcrypt_check(password, hash) {
            None => Err(AppError::Internal(arbitrary())),
            Some(false) => Err(AppError::AuthRequired),
            Some(true) => if status != UserStatus::Active {
                Err(AppError::AuthRequired)
            } else {
                Ok(())
            },
        },
    }
}

pub open spec fn account_view(a: Option<(Option<String>, UserStatus)>) -> Option<(Option<Seq<char>>, UserStatus)> {
    match a {
        None => None,
        Some((None, s)) => Some((None, s)),
        Some((Some(h), s)) => Some((Some(h@), s)),
    }
}

/// Checks a login attempt.
pub fn check_login(password: &str, account: &Option<(Option<String>, UserStatus)>) -> (r: Result<(), AppError>)
    ensures
        same_outcome(r, login_outcome(password@, account_view(*account))),
{
    match account {
        None => Err(AppError::AuthRequired),
        Some((None, _)) => Err(AppError::AuthRequired),
        Some((Some(hash), status)) => match bcrypt_verify(password, hash.as_str()) {
            Err(_) => Err(AppError::Internal(owned("password verify error"))),
            Ok(false) => Err(AppError::AuthRequired),
            Ok(true) => if *status != UserStatus::Active {
                Err(AppError::AuthRequired)
            } else {
                Ok(())
            },
        },
    }
}

// ---------------------------------------------------------------------------
// Current user
// ---------------------------------------------------------------------------

/// A portal role held by a user, for all tenants or for one.
#[derive(Debug)]
pub struct RoleInfo {
    pub id: Id,
    pub code: String,
    pub name: String,
    pub tenant_id: Option<Id>,
}

/// A tenant the user is an active member of.
#[derive(Debug)]
pub struct TenantInfo {
    pub id: Id,
    pub code: String,
    pub name: String,
}

/// The signed-in user as the portal presents it.
#[derive(Debug)]
pub struct CurrentUser {
    pub id: Id,
    pub username: String,
    pub display_name: String,
    pub email: Option<String>,
    pub avatar_url: Option<String>,
    pub status: UserStatus,
    pub default_tenant_id: Option<Id>,
    pub is_super_admin: bool,
    pub can_enter_admin: bool,
    pub roles: Vec<RoleInfo>,
    pub tenants: Vec<TenantInfo>,
}

/// Some role of `roles` is `super-admin`.
pub open spec fn has_super_admin_role(roles: Seq<RoleInfo>) -> bool {
    exists|i: int| 0 <= i < roles.len() && roles[i].code@ == "super-admin"@
}

/// Assembles the current user; super administrators, and only they, may enter the
/// administration console.
pub fn build_current_user(
    id: Id,
    username: String,
    display_name: String,
    email: Option<String>,
    avatar_url: Option<String>,
    status: UserStatus,
    default_tenant_id: Option<Id>,
    roles: Vec<RoleInfo>,
    tenants: Vec<TenantInfo>,
) -> (r: CurrentUser)
    ensures
        r.id == id,
        r.username == username,
        r.display_name == display_name,
        r.email == email,
        r.avatar_url == avatar_url,
        r.status == status,
        r.default_tenant_id == default_tenant_id,
        r.roles@ == roles@,
        r.tenants@ == tenants@,
        r.is_super_admin == has_super_admin_role(roles@),
        r.can_enter_admin == r.is_super_admin,
{
    let mut is_super = false;
    let mut i: usize = 0;
    while i < roles.len()
        invariant
            i <= roles.len(),
            is_super == exists|j: int| 0 <= j < i && roles@[j].code@ == "super-admin"@,
        decreases roles.len() - i,
    {
        if text_eq(roles[i].code.as_str(), "super-admin") {
            is_super = true;
        }
        i = i + 1;
    }
    CurrentUser {
        id,
        username,
        display_name,
        email,
        avatar_url,
        status,
        default_tenant_id,
        is_super_admin: is_super,
        can_enter_admin: is_super,
        roles,
        tenants,
    }
}

/// Only super administrators pass.
pub fn require_super_admin(current: &CurrentUser) -> (r: Result<(), AppError>)
    ensures
        current.is_super_admin ==> r is Ok,
        !current.is_super_admin ==> r matches Err(AppError::PermissionDenied),
{
    if current.is_super_admin {
        Ok(())
    } else {
        Err(AppError::PermissionDenied)
    }
}

/// The answer to a successful sign-in: the signed-in user.
#[derive(Debug)]
pub struct LoginResponse {
    pub user: CurrentUser,
}

/// An open session.
#[derive(Debug)]
pub struct Session {
    pub session_id: String,
    pub user_id: Id,
    pub remember_me: bool,
}

// ---------------------------------------------------------------------------
// Subsystem tickets
// ---------------------------------------------------------------------------

/// The ticket id and secret of a code `ticket_id:secret`, if the id is a UUID.
pub open spec fn ticket_code_spec(code: Seq<char>) -> Option<(Id, Seq<char>)> {
    match split_once(code, ':') {
        None => None,
        Some((id_text, secret)) => match uuid_parse(id_text) {
            None => None,
            Some(id) => Some((id, secret)),
        },
    }
}

/// Reads a ticket code; an unreadable code is an invalid ticket. A code written as
/// the text of an identifier, `:` and a secret reads back as that identifier and secret.
pub fn parse_ticket_code(code: &str) -> (r: Result<(Id, String), AppError>)
    ensures
        match ticket_code_spec(code@) {
            Some((id, secret)) => r matches Ok((i, s)) && i == id && s@ == secret,
            None => r matches Err(AppError::InvalidSubsystemTicket),
        },
        forall|n: Id, secret: Seq<char>| code@ == #[trigger] (id_text_spec(n) + seq![':'] + secret)
            ==> (r matches Ok((i, s)) && i == n && s@ == secret),
{
    let cs = chars_of(code);
    let (id_part, secret) = match split_once_chars(cs.as_slice(), ':') {
        Some(p) => p,
        None => {
            proof {
                assert forall|n: Id, sec: Seq<char>| code@ == #[trigger] (id_text_spec(n) + seq![':'] + sec) implies false by {
                    lemma_split_after_id(n, sec);
                }
            }
            return Err(AppError::InvalidSubsystemTicket);
        },
    };
    let id_str = string_of(id_part.as_slice());
    let parsed = parse_id(id_str.as_str());
    proof {
        assert forall|n: Id, sec: Seq<char>| code@ == #[trigger] (id_text_spec(n) + seq![':'] + sec) implies parsed
            == Some(n) && secret@ == sec by {
            lemma_split_after_id(n, sec);
        }
    }
    match parsed {
        Some(id) => Ok((id, string_of(secret.as_slice()))),
        None => Err(AppError::InvalidSubsystemTicket),
    }
}

/// What a stored ticket must satisfy to be redeemed, in this order: not consumed nor
/// expired, issued for the subsystem that redeems it, and the secret matching its hash
/// (an unreadable hash is an internal error).
pub open spec fn ticket_outcome(
    consumed: bool,
    expires_at: i64,
    now: i64,
    ticket_system_code: Seq<char>,
    requested_system_code: Seq<char>,
    secret: Seq<char>,
    code_hash: Seq<char>,
) -> Result<(), AppError> {
    if consumed || expires_at < now {
        Err(AppError::InvalidSubsystemTicket)
    } else if ticket_system_code != requested_system_code {
        Err(AppError::InvalidSubsystemTicket)
    } else {
        match bcrypt_check(secret, code_hash) {
            None => Err(AppError::Internal(arbitrary())),
            Some(false) => Err(AppError::InvalidSubsystemTicket),
            Some(true) => Ok(()),
        }
    }
}

/// Checks a stored ticket before it is consumed.
pub fn check_ticket(
    consumed: bool,
    expires_at: i64,
    now: i64,
    ticket_system_code: &str,
    requested_system_code: &str,
    secret: &str,
    code_hash: &str,
) -> (r: Result<(), AppError>)
    ensures
        same_outcome(
            r,
            ticket_outcome(consumed, expires_at, now, ticket_system_code@, requested_system_code@, secret@, code_hash@),
        ),
{
    if consumed || expires_at < now {
        return Err(AppError::InvalidSubsystemTicket);
    }
    if !text_eq(ticket_system_code, requested_system_code) {
        return Err(AppError::InvalidSubsystemTicket);
    }
    match bcrypt_verify(secret, code_hash) {
        Err(_) => Err(AppError::Internal(owned("ticket verify error"))),
        Ok(false) => Err(AppError::InvalidSubsystemTicket),
        Ok(true) => Ok(()),
    }
}

/// What redeeming a ticket gives and does: the outcome of `ticket_outcome`, then the
/// account must be active (a disabled, pending or archived user gets no context); the
/// ticket is consumed by a successful redemption and stays as it was after a refused one.
pub open spec fn redeem_spec(
    consumed: bool,
    expires_at: i64,
    now: i64,
    ticket_system_code: Seq<char>,
    requested_system_code: Seq<char>,
    secret: Seq<char>,
    code_hash: Seq<char>,
    user_status: UserStatus,
) -> (Result<(), AppError>, bool) {
    let out = ticket_outcome(consumed, expires_at, now, ticket_system_code, requested_system_code, secret, code_hash);
    if out is Ok && user_status != UserStatus::Active {
        (Err(AppError::InvalidSubsystemTicket), consumed)
    } else {
        (out, consumed || out is Ok)
    }
}

/// Redeems a ticket for its user: the outcome, and whether the ticket is consumed
/// afterwards.
pub fn redeem_ticket(
    consumed: bool,
    expires_at: i64,
    now: i64,
    ticket_system_code: &str,
    requested_system_code: &str,
    secret: &str,
    code_hash: &str,
    user_status: UserStatus,
) -> (r: (Result<(), AppError>, bool))
    ensures
        ({
            let expected = redeem_spec(
                consumed,
                expires_at,
                now,
                ticket_system_code@,
                requested_system_code@,
                secret@,
                code_hash@,
                user_status,
            );
            same_outcome(r.0, expected.0) && r.1 == expected.1
        }),
{
    let out = check_ticket(consumed, expires_at, now, ticket_system_code, requested_system_code, secret, code_hash);
    match out {
        Ok(()) => if user_status != UserStatus::Active {
            (Err(AppError::InvalidSubsystemTicket), consumed)
        } else {
            (Ok(()), true)
        },
        Err(e) => (Err(e), consumed),
    }
}

/// A ticket issued for a subsystem and an active user, whose secret was stored as
/// `hash_secret` hashed it, is redeemed once: an attempt by another subsystem is
/// refused and leaves it usable; the subsystem it was issued for then redeems it before
/// it expires, which consumes it; every later attempt is refused.
pub proof fn law_ticket_exchange_sequence(
    expires_at: i64,
    now1: i64,
    now2: i64,
    now3: i64,
    system_code: Seq<char>,
    other_code: Seq<char>,
    any_code: Seq<char>,
    secret: Seq<char>,
    any_secret: Seq<char>,
    code_hash: Seq<char>,
)
    requires
        bcrypt_check(secret, code_hash) == Some(true),
        other_code != system_code,
        now1 <= expires_at,
        now2 <= expires_at,
    ensures
        ({
            let first = redeem_spec(false, expires_at, now1, system_code, other_code, secret, code_hash, UserStatus::Active);
            let second = redeem_spec(first.1, expires_at, now2, system_code, system_code, secret, code_hash, UserStatus::Active);
            let third = redeem_spec(second.1, expires_at, now3, system_code, any_code, any_secret, code_hash, UserStatus::Active);
            &&& first == (Err::<(), AppError>(AppError::InvalidSubsystemTicket), false)
            &&& second == (Ok::<(), AppError>(()), true)
            &&& third == (Err::<(), AppError>(AppError::InvalidSubsystemTicket), true)
        }),
{
}

/// A password stored as `hash_password` hashed it signs its account in while the
/// account is active, and is refused once the account is disabled, pending or archived.
pub proof fn law_stored_password_signs_in(password: Seq<char>, hash: Seq<char>, status: UserStatus)
    requires
        bcrypt_check(password, hash) == Some(true),
    ensures
        status == UserStatus::Active ==> login_outcome(password, Some((Some(hash), status))) == Ok::<(), AppError>(()),
        status != UserStatus::Active ==> login_outcome(password, Some((Some(hash), status)))
            == Err::<(), AppError>(AppError::AuthRequired),
{
}

/// A session whose secret was stored as `hash_secret` hashed it authenticates the
/// holder of that secret until it expires or is revoked, while the account is active.
pub proof fn law_session_secret_accepted(
    revoked: bool,
    expires_at: i64,
    now: i64,
    secret: Seq<char>,
    hash: Seq<char>,
    status: UserStatus,
)
    requires
        bcrypt_check(secret, hash) == Some(true),
    ensures
        session_outcome(revoked, expires_at, now, secret, hash, status) == if revoked || expires_at < now
            || status != UserStatus::Active {
            Err::<(), AppError>(AppError::AuthRequired)
        } else {
            Ok(())
        },
{
}

/// A ticket whose secret was stored as `hash_secret` hashed it is redeemed once: by the
/// subsystem it was issued for, before it expires and while it is not consumed; a
/// consumed ticket is refused.
pub proof fn law_ticket_redeemed_once(
    consumed: bool,
    expires_at: i64,
    now: i64,
    ticket_system_code: Seq<char>,
    requested_system_code: Seq<char>,
    secret: Seq<char>,
    code_hash: Seq<char>,
)
    requires
        bcrypt_check(secret, code_hash) == Some(true),
    ensures
        ticket_outcome(consumed, expires_at, now, ticket_system_code, requested_system_code, secret, code_hash) == if consumed
            || expires_at < now || ticket_system_code != requested_system_code {
            Err::<(), AppError>(AppError::InvalidSubsystemTicket)
        } else {
            Ok(())
        },
        ticket_outcome(true, expires_at, now, ticket_system_code, requested_system_code, secret, code_hash)
            == Err::<(), AppError>(AppError::InvalidSubsystemTicket),
{
}

/// A lowercase hexadecimal digit.
pub open spec fn is_hex_digit(c: char) -> bool {
    ('0' <= c && c <= '9') || ('a' <= c && c <= 'f')
}

proof fn lemma_hex_digits(n: nat, w: nat)
    ensures
        forall|k: int| 0 <= k < hex_fixed(n, w).len() ==> is_hex_digit(#[trigger] hex_fixed(n, w)[k]),
    decreases w,
{
    if w > 0 {
        lemma_hex_digits(n / 16, (w - 1) as nat);
        let d = n % 16;
        assert(is_hex_digit(hex_lower(d)));
        let h = hex_fixed(n, w);
        assert forall|k: int| 0 <= k < h.len() implies is_hex_digit(#[trigger] h[k]) by {
            if k < h.len() - 1 {
                assert(h[k] == hex_fixed(n / 16, (w - 1) as nat)[k]);
            }
        }
    }
}

/// The text of an identifier is made of lowercase hexadecimal digits and hyphens.
proof fn lemma_id_text_chars(id: Id)
    ensures
        id_text_spec(id).len() == 36,
        forall|k: int| 0 <= k < 36 ==> #[trigger] id_text_spec(id)[k] == '-' || is_hex_digit(id_text_spec(id)[k]),
{
    let h = hex_fixed(id as nat, 32);
    lemma_hex_digits(id as nat, 32);
    lemma_hex_fixed_len(id as nat, 32);
    let t = id_text_spec(id);
    assert forall|k: int| 0 <= k < 36 implies #[trigger] t[k] == '-' || is_hex_digit(t[k]) by {
        let j = if k < 8 {
            k
        } else if k < 13 {
            k - 1
        } else if k < 18 {
            k - 2
        } else if k < 23 {
            k - 3
        } else {
            k - 4
        };
        if k != 8 && k != 13 && k != 18 && k != 23 {
            assert(t[k] == h[j]);
        }
    }
}

/// `<id>:<rest>` splits at its first colon into the id's text and the rest.
proof fn lemma_split_after_id(id: Id, rest: Seq<char>)
    ensures
        split_once(id_text_spec(id) + seq![':'] + rest, ':') == Some((id_text_spec(id), rest)),
{
    let t = id_text_spec(id);
    let code = t + seq![':'] + rest;
    lemma_id_text_chars(id);
    lemma_find_char(code, ':');
    let f = find_char(code, ':');
    assert(code[t.len() as int] == ':');
    assert(code.contains(':'));
    assert(f == t.len()) by {
        if f < t.len() {
            assert(code[f] == t[f]);
            assert(t[f] == '-' || is_hex_digit(t[f]));
        }
    }
    assert(code.take(f) =~= t);
    assert(code.skip(f + 1) =~= rest);
}

/// A ticket code as issued to a subsystem, `<ticket id>:<secret>`, reads back as the
/// text of that id and the same secret: the id is what `uuid_parse` reads from its own
/// text, and the secret is returned whole, colons included.
pub proof fn law_ticket_code_read_back(ticket_id: Id, secret: Seq<char>)
    ensures
        ticket_code_spec(id_text_spec(ticket_id) + seq![':'] + secret) == match uuid_parse(id_text_spec(ticket_id)) {
            Some(i) => Some((i, secret)),
            None => None,
        },
{
    lemma_split_after_id(ticket_id, secret);
}

proof fn lemma_split_all_without(s: Seq<char>, c: char)
    requires
        !s.contains(c),
    ensures
        split_all(s, c) == seq![s],
    decreases s.len(),
{
    if s.len() > 0 {
        assert(!s.drop_last().contains(c)) by {
            if s.drop_last().contains(c) {
                let k = choose|k: int| 0 <= k < s.drop_last().len() && s.drop_last()[k] == c;
                assert(s[k] == c);
            }
        }
        lemma_split_all_without(s.drop_last(), c);
        assert(s.last() != c) by {
            assert(s[s.len() - 1] == s.last());
        }
        assert(s.drop_last().push(s.last()) =~= s);
        assert(seq![s.drop_last()].update(0, s.drop_last().push(s.last())) =~= seq![s]);
    } else {
        assert(s =~= Seq::<char>::empty());
    }
}

/// The cookie that opens a session, sent back by the browser as `name=<id>:<secret>`,
/// authenticates as that session: its value under the name is `<id>:<secret>`, and it
/// reads back as the text of the session's id and the same secret, for a cookie name
/// that does not begin with white space and a name and secret without `;` (the secret
/// not ending in white space). `parse_session_cookie` then gives that very id.
pub proof fn law_session_cookie_read_back(name: Seq<char>, session_id: Id, secret: Seq<char>)
    requires
        name.len() > 0,
        !is_ws(name[0]),
        !name.contains(';'),
        !secret.contains(';'),
        secret.len() > 0 ==> !is_ws(secret.last()),
    ensures
        cookie_value(split_all(name + seq!['='] + id_text_spec(session_id) + seq![':'] + secret, ';'), name + seq!['='])
            == Some(id_text_spec(session_id) + seq![':'] + secret),
        session_cookie_spec(name + seq!['='] + id_text_spec(session_id) + seq![':'] + secret, name)
            == match uuid_parse(id_text_spec(session_id)) {
            Some(i) => Some((i, secret)),
            None => None,
        },
{
    let t = id_text_spec(session_id);
    let token = t + seq![':'] + secret;
    let prefix = name + seq!['='];
    let header = name + seq!['='] + t + seq![':'] + secret;
    lemma_id_text_chars(session_id);
    assert(header =~= prefix + token);
    assert(!header.contains(';')) by {
        if header.contains(';') {
            let k = choose|k: int| 0 <= k < header.len() && header[k] == ';';
            if k < name.len() {
                assert(name[k] == ';');
            } else if k == name.len() {
            } else if k < name.len() + 1 + 36 {
                assert(header[k] == t[k - name.len() - 1]);
            } else if k == name.len() + 37 {
            } else {
                assert(header[k] == secret[k - name.len() - 38]);
            }
        }
    }
    lemma_split_all_without(header, ';');
    assert(header[0] == name[0]);
    assert(trim_start(header) == header);
    assert(header.last() != ':' ==> secret.len() > 0);
    assert(secret.len() > 0 ==> header.last() == secret.last());
    assert(!is_ws(header.last()));
    assert(trim_end(header) == header);
    assert(trim(header) == header);
    let parts = seq![header];
    assert(parts.drop_last() =~= Seq::<Seq<char>>::empty());
    assert(header.take(prefix.len() as int) =~= prefix);
    assert(starts_with(trim(parts.last()), prefix));
    assert(header.skip(prefix.len() as int) =~= token);
    assert(cookie_value(parts.drop_last(), prefix) is None);
    assert(cookie_value(parts, prefix) == Some(token));
    lemma_split_after_id(session_id, secret);
}

} // verus!
