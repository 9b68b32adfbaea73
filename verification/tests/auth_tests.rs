use portal::auth::{
    build_current_user, check_login, check_ticket, clear_session_cookie, generate_session_token, hash_password,
    hash_secret, parse_session_cookie, parse_ticket_code, require_super_admin, session_cookie, session_ttl,
    validate_session, ExchangeTicketRequest, LoginRequest, RoleInfo, TenantInfo,
};
use portal::error::AppError;
use portal::ids::{id_text, parse_id};
use portal::auth::redeem_ticket;
use portal::model::{AdminScope, SystemStatus, UserStatus};
use portal::permissions::SystemAccess;
use portal::records::subsystem_context;
use portal::portal::{generate_random_token, ticket_code};

const SID: &str = "01234567-89ab-cdef-0123-456789abcdef";
const SID_NUM: u128 = 0x0123456789abcdef0123456789abcdef;

#[test]
fn identifiers_read_and_write() {
    assert_eq!(id_text(SID_NUM), SID);
    assert_eq!(parse_id(SID), Some(SID_NUM));
    assert_eq!(parse_id("0123456789ABCDEF0123456789ABCDEF"), Some(SID_NUM));
    assert_eq!(parse_id("not a uuid"), None);
    assert_eq!(id_text(0), "00000000-0000-0000-0000-000000000000");
}

#[test]
fn a_session_cookie_reads_back() {
    let cookie = session_cookie("portal_session", SID_NUM, "s3cr3t");
    assert_eq!(cookie, format!("portal_session={}:s3cr3t; Path=/; HttpOnly; SameSite=Lax", SID));
    let sent = format!("portal_session={}:s3cr3t", SID);
    let (id, secret) = parse_session_cookie(&sent, "portal_session").unwrap();
    assert_eq!(id, SID_NUM);
    assert_eq!(secret, "s3cr3t");
    let among = format!("theme=dark;  portal_session={}:a:b ; other=1", SID);
    let (id, secret) = parse_session_cookie(&among, "portal_session").unwrap();
    assert_eq!(id, SID_NUM);
    assert_eq!(secret, "a:b");
    assert_eq!(clear_session_cookie("portal_session"), "portal_session=; Path=/; HttpOnly; SameSite=Lax; Max-Age=0");
}

#[test]
fn unreadable_cookies_require_login() {
    assert!(matches!(parse_session_cookie("theme=dark", "portal_session"), Err(AppError::AuthRequired)));
    assert!(matches!(parse_session_cookie("portal_session=nocolon", "portal_session"), Err(AppError::AuthRequired)));
    assert!(matches!(parse_session_cookie("portal_session=bad:x", "portal_session"), Err(AppError::AuthRequired)));
}

#[test]
fn sessions_are_checked_in_order() {
    let hash = hash_secret("token").unwrap();
    assert!(validate_session(false, 100, 50, "token", &hash, UserStatus::Active).is_ok());
    assert!(matches!(validate_session(true, 100, 50, "token", &hash, UserStatus::Active), Err(AppError::AuthRequired)));
    assert!(matches!(validate_session(false, 10, 50, "token", &hash, UserStatus::Active), Err(AppError::AuthRequired)));
    assert!(matches!(validate_session(false, 100, 50, "other", &hash, UserStatus::Active), Err(AppError::AuthRequired)));
    assert!(matches!(validate_session(false, 100, 50, "token", &hash, UserStatus::Disabled), Err(AppError::AuthRequired)));
    assert!(matches!(validate_session(false, 100, 50, "token", "not-a-hash", UserStatus::Active), Err(AppError::Internal(_))));
    assert_eq!(session_ttl(true, 10, 20), 20);
    assert_eq!(session_ttl(false, 10, 20), 10);
}

#[test]
fn logins_need_an_active_account_with_the_password() {
    let hash = hash_password("correct horse").unwrap();
    assert!(hash.starts_with("$2"));
    let active = Some((Some(hash.clone()), UserStatus::Active));
    assert!(check_login("correct horse", &active).is_ok());
    assert!(matches!(check_login("wrong", &active), Err(AppError::AuthRequired)));
    assert!(matches!(check_login("correct horse", &None), Err(AppError::AuthRequired)));
    assert!(matches!(check_login("correct horse", &Some((None, UserStatus::Active))), Err(AppError::AuthRequired)));
    let pending = Some((Some(hash), UserStatus::Pending));
    assert!(matches!(check_login("correct horse", &pending), Err(AppError::AuthRequired)));
    assert!(matches!(check_login("x", &Some((Some("garbage".to_string()), UserStatus::Active))), Err(AppError::Internal(_))));
    let req = LoginRequest { username: "a".to_string(), password: "b".to_string(), remember_me: None };
    assert!(!req.remembers());
    let req = LoginRequest { username: "a".to_string(), password: "b".to_string(), remember_me: Some(true) };
    assert!(req.remembers());
}

#[test]
fn random_secrets_have_their_shape() {
    let t = generate_session_token();
    assert_eq!(t.len(), 96);
    assert!(t.chars().all(|c| c.is_ascii_hexdigit() && !c.is_ascii_uppercase()));
    assert_ne!(generate_session_token(), t);
    let r = generate_random_token(48);
    assert_eq!(r.chars().count(), 48);
    assert!(r.chars().all(|c| c.is_ascii_alphanumeric()));
}

#[test]
fn a_ticket_code_reads_back_and_is_redeemed_once() {
    let code = ticket_code(SID_NUM, "abc:def");
    assert_eq!(code, format!("{}:abc:def", SID));
    let req = ExchangeTicketRequest { code: code.clone(), system_code: "docs".to_string() };
    let (id, secret) = parse_ticket_code(&req.code).unwrap();
    assert_eq!(id, SID_NUM);
    assert_eq!(secret, "abc:def");
    assert!(matches!(parse_ticket_code("no-colon"), Err(AppError::InvalidSubsystemTicket)));
    assert!(matches!(parse_ticket_code("xyz:secret"), Err(AppError::InvalidSubsystemTicket)));
    let hash = hash_secret(&secret).unwrap();
    assert!(check_ticket(false, 200, 100, "docs", &req.system_code, &secret, &hash).is_ok());
    assert!(matches!(check_ticket(true, 200, 100, "docs", "docs", &secret, &hash), Err(AppError::InvalidSubsystemTicket)));
    assert!(matches!(check_ticket(false, 99, 100, "docs", "docs", &secret, &hash), Err(AppError::InvalidSubsystemTicket)));
    assert!(matches!(check_ticket(false, 200, 100, "docs", "mail", &secret, &hash), Err(AppError::InvalidSubsystemTicket)));
    assert!(matches!(check_ticket(false, 200, 100, "docs", "docs", "guess", &hash), Err(AppError::InvalidSubsystemTicket)));
    assert!(matches!(check_ticket(false, 200, 100, "docs", "docs", &secret, "junk"), Err(AppError::Internal(_))));
}

#[test]
fn only_super_administrators_enter_the_console() {
    let roles = vec![
        RoleInfo { id: 1, code: "user".to_string(), name: "普通用户".to_string(), tenant_id: None },
        RoleInfo { id: 2, code: "super-admin".to_string(), name: "超级管理员".to_string(), tenant_id: None },
    ];
    let tenants = vec![TenantInfo { id: 9, code: "default".to_string(), name: "默认租户".to_string() }];
    let u = build_current_user(5, "alice".to_string(), "Alice".to_string(), None, None, UserStatus::Active, Some(9), roles, tenants);
    assert!(u.is_super_admin && u.can_enter_admin);
    assert!(require_super_admin(&u).is_ok());
    let plain = build_current_user(6, "bob".to_string(), "Bob".to_string(), None, None, UserStatus::Active, None, vec![], vec![]);
    assert!(!plain.is_super_admin && !plain.can_enter_admin);
    assert!(matches!(require_super_admin(&plain), Err(AppError::PermissionDenied)));
}

#[test]
fn hashes_carry_their_cost() {
    let h = hash_password("pw").unwrap();
    assert_eq!(&h[..7], "$2b$12$");
    let h = hash_secret("secret").unwrap();
    assert_eq!(&h[..7], "$2b$10$");
}

#[test]
fn a_ticket_is_exchanged_once_and_only_by_its_subsystem() {
    let hash = hash_secret("s3cret").unwrap();
    let (out, consumed) = redeem_ticket(false, 200, 100, "docs", "mail", "s3cret", &hash, UserStatus::Active);
    assert!(matches!(out, Err(AppError::InvalidSubsystemTicket)));
    assert!(!consumed);
    let (out, consumed) = redeem_ticket(consumed, 200, 150, "docs", "docs", "s3cret", &hash, UserStatus::Active);
    assert!(out.is_ok());
    assert!(consumed);
    let (out, consumed) = redeem_ticket(consumed, 200, 160, "docs", "docs", "s3cret", &hash, UserStatus::Active);
    assert!(matches!(out, Err(AppError::InvalidSubsystemTicket)));
    assert!(consumed);
    let (out, consumed) = redeem_ticket(false, 200, 100, "docs", "docs", "s3cret", &hash, UserStatus::Disabled);
    assert!(matches!(out, Err(AppError::InvalidSubsystemTicket)));
    assert!(!consumed);
}

#[test]
fn the_ticket_context_carries_user_tenant_and_access() {
    let access = SystemAccess {
        system_id: 3,
        system_code: "docs".to_string(),
        name: "Docs".to_string(),
        description: None,
        icon_url: None,
        entry_url: "https://docs".to_string(),
        category: None,
        status: SystemStatus::Active,
        visible: true,
        accessible: true,
        system_roles: vec!["editor".to_string()],
        permissions: vec!["docs:read".to_string()],
        scopes: vec![AdminScope { scope_type: "module".to_string(), scope_code: "a".to_string() }],
        identity_label: "普通用户".to_string(),
        is_sub_admin: false,
        admin_type: None,
    };
    let roles = vec!["user".to_string()];
    let c = subsystem_context(1, "alice", "Alice", &None, &Some("/a.png".to_string()), 2, "acme", "Acme Corp", "docs", &roles, &access, 1000, 300);
    assert_eq!(c.user_id, 1);
    assert_eq!(c.tenant_id, Some(2));
    assert_eq!(c.tenant_code, "acme");
    assert_eq!(c.tenant_name, "Acme Corp");
    assert_eq!(c.avatar_url.as_deref(), Some("/a.png"));
    assert_eq!(c.portal_roles, roles);
    assert_eq!(c.system_roles, vec!["editor".to_string()]);
    assert_eq!(c.permissions, vec!["docs:read".to_string()]);
    assert_eq!(c.admin_scopes.len(), 1);
    assert_eq!(c.issued_at, 1000);
    assert_eq!(c.expires_at, 1300);
}
