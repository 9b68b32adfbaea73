//! Rules of the administration console: query text escaping, paging, CSV export,
//! batch user operations, the permission matrix and integration checks.

use vstd::prelude::*;
use crate::model::{Id, AuthMode, TenantStatus, UserStatus, RoleType, SubjectType, SystemStatus, GrantStatus, AdminType, AuditResult, audit_result_name};
use crate::error::AppError;
use crate::ids::{parse_id, uuid_parse, id_text, id_text_spec};
use crate::text::{chars_of, string_of, replace_chars, replace_char, has_char, text_eq, owned, concat, signed_decimal, signed_decimal_chars};

verus! {

// ---------------------------------------------------------------------------
// Escaping text placed inside SQL literals
// ---------------------------------------------------------------------------

/// `value` made safe inside a single-quoted SQL literal: every quote doubled.
pub open spec fn sanitize_literal_spec(value: Seq<char>) -> Seq<char> {
    replace_char(value, '\'', seq!['\'', '\''])
}

/// `value` made safe inside a single-quoted `LIKE` pattern: backslash, `%` and `_`
/// escaped with a backslash, in that order, then quotes doubled.
pub open spec fn sanitize_like_spec(value: Seq<char>) -> Seq<char> {
    replace_char(
        replace_char(
            replace_char(replace_char(value, '\\', seq!['\\', '\\']), '%', seq!['\\', '%']),
            '_',
            seq!['\\', '_'],
        ),
        '\'',
        seq!['\'', '\''],
    )
}

/// Doubles every single quote of `value`.
pub fn sanitize_literal(value: &str) -> (r: String)
    ensures
        r@ == sanitize_literal_spec(value@),
{
    let cs = chars_of(value);
    let q = ['\'', '\''];
    let out = replace_chars(cs.as_slice(), '\'', &q);
    assert(q@ =~= seq!['\'', '\'']);
    string_of(out.as_slice())
}

/// Escapes the `LIKE` wildcards and the quotes of `value`.
pub fn sanitize_like(value: &str) -> (r: String)
    ensures
        r@ == sanitize_like_spec(value@),
{
    let cs = chars_of(value);
    let bs = ['\\', '\\'];
    let pc = ['\\', '%'];
    let us = ['\\', '_'];
    let q = ['\'', '\''];
    assert(bs@ =~= seq!['\\', '\\']);
    assert(pc@ =~= seq!['\\', '%']);
    assert(us@ =~= seq!['\\', '_']);
    assert(q@ =~= seq!['\'', '\'']);
    let a = replace_chars(cs.as_slice(), '\\', &bs);
    let b = replace_chars(a.as_slice(), '%', &pc);
    let c = replace_chars(b.as_slice(), '_', &us);
    let d = replace_chars(c.as_slice(), '\'', &q);
    string_of(d.as_slice())
}

// ---------------------------------------------------------------------------
// CSV export
// ---------------------------------------------------------------------------

/// A CSV field: quoted, with quotes doubled, when it holds a comma, a quote or a
/// newline; as it is otherwise.
pub open spec fn escape_csv_spec(value: Seq<char>) -> Seq<char> {
    if value.contains(',') || value.contains('"') || value.contains('\n') {
        seq!['"'] + replace_char(value, '"', seq!['"', '"']) + seq!['"']
    } else {
        value
    }
}

/// Escapes one CSV field.
pub fn escape_csv(value: &str) -> (r: String)
    ensures
        r@ == escape_csv_spec(value@),
{
    let cs = chars_of(value);
    if has_char(cs.as_slice(), ',') || has_char(cs.as_slice(), '"') || has_char(cs.as_slice(), '\n') {
        let qq = ['"', '"'];
        assert(qq@ =~= seq!['"', '"']);
        let inner = replace_chars(cs.as_slice(), '"', &qq);
        let mut out: Vec<char> = Vec::new();
        out.push('"');
        let mut i: usize = 0;
        while i < inner.len()
            invariant
                i <= inner.len(),
                out@ == seq!['"'] + inner@.take(i as int),
            decreases inner.len() - i,
        {
            out.push(inner[i]);
            assert(out@ =~= seq!['"'] + inner@.take(i + 1));
            i = i + 1;
        }
        out.push('"');
        assert(inner@.take(inner.len() as int) =~= inner@);
        assert(out@ =~= seq!['"'] + inner@ + seq!['"']);
        string_of(out.as_slice())
    } else {
        string_of(cs.as_slice())
    }
}

/// The escaped fields of `fields`, separated by commas.
pub open spec fn csv_join(fields: Seq<Seq<char>>) -> Seq<char>
    decreases fields.len(),
{
    if fields.len() == 0 {
        Seq::empty()
    } else if fields.len() == 1 {
        escape_csv_spec(fields[0])
    } else {
        csv_join(fields.drop_last()) + seq![','] + escape_csv_spec(fields.last())
    }
}

/// One CSV record: the escaped fields separated by commas, ended by a newline.
pub fn csv_line(fields: &Vec<String>) -> (r: String)
    ensures
        r@ == csv_join(fields.deep_view()) + seq!['\n'],
{
    let mut out: Vec<char> = Vec::new();
    let mut i: usize = 0;
    while i < fields.len()
        invariant
            i <= fields.len(),
            out@ == csv_join(fields.deep_view().take(i as int)),
        decreases fields.len() - i,
    {
        let ghost pre = fields.deep_view().take(i as int);
        assert(fields.deep_view().take(i + 1).drop_last() =~= pre);
        assert(fields.deep_view().take(i + 1).last() == fields.deep_view()[i as int]);
        let e = escape_csv(fields[i].as_str());
        let ec = chars_of(e.as_str());
        if i > 0 {
            out.push(',');
        }
        let ghost before = out@;
        let mut k: usize = 0;
        while k < ec.len()
            invariant
                k <= ec.len(),
                out@ == before + ec@.take(k as int),
            decreases ec.len() - k,
        {
            out.push(ec[k]);
            assert(out@ =~= before + ec@.take(k + 1));
            k = k + 1;
        }
        assert(ec@.take(ec.len() as int) =~= ec@);
        if i == 0 {
            assert(fields.deep_view().take(1)[0] == fields.deep_view()[0]);
            assert(out@ =~= csv_join(fields.deep_view().take(1)));
        }
        i = i + 1;
    }
    assert(fields.deep_view().take(fields.len() as int) =~= fields.deep_view());
    out.push('\n');
    string_of(out.as_slice())
}

/// One audit event as exported; its time is an RFC 3339 timestamp.
#[derive(Debug)]
pub struct AuditExportRow {
    pub occurred_at: String,
    pub request_id: Option<String>,
    pub actor_name: String,
    pub action: String,
    pub target_type: String,
    pub target_id: Option<String>,
    pub system_name: Option<String>,
    pub tenant_name: Option<String>,
    pub result: AuditResult,
    pub failure_reason: Option<String>,
}

/// An optional text, empty where absent.
pub open spec fn or_empty(o: Option<String>) -> Seq<char> {
    match o {
        Some(s) => s@,
        None => Seq::empty(),
    }
}

/// The fields of an exported event, in column order.
pub open spec fn export_fields(r: AuditExportRow) -> Seq<Seq<char>> {
    seq![
        r.occurred_at@,
        or_empty(r.request_id),
        r.actor_name@,
        r.action@,
        r.target_type@,
        or_empty(r.target_id),
        or_empty(r.system_name),
        or_empty(r.tenant_name),
        audit_result_name(r.result),
        or_empty(r.failure_reason),
    ]
}

/// The head of an export: a byte-order mark, then the column titles.
pub open spec fn export_head() -> Seq<char> {
    "\u{FEFF}时间,请求ID,操作人,操作,目标类型,目标ID,系统,租户,结果,失败原因\n"@
}

/// The CSV export of audit events: the head, then one record per event, in order.
pub open spec fn export_body(rows: Seq<AuditExportRow>) -> Seq<char>
    decreases rows.len(),
{
    if rows.len() == 0 {
        export_head()
    } else {
        export_body(rows.drop_last()) + csv_join(export_fields(rows.last())) + seq!['\n']
    }
}

fn opt_or_empty(o: &Option<String>) -> (r: String)
    ensures
        r@ == or_empty(*o),
{
    match o {
        Some(s) => s.clone(),
        None => String::new(),
    }
}

/// The CSV export of audit events.
pub fn audit_csv(rows: &Vec<AuditExportRow>) -> (r: String)
    ensures
        r@ == export_body(rows@),
{
    let mut out = chars_of("\u{FEFF}时间,请求ID,操作人,操作,目标类型,目标ID,系统,租户,结果,失败原因\n");
    let mut i: usize = 0;
    while i < rows.len()
        invariant
            i <= rows.len(),
            out@ == export_body(rows@.take(i as int)),
        decreases rows.len() - i,
    {
        assert(rows@.take(i + 1).drop_last() =~= rows@.take(i as int));
        assert(rows@.take(i + 1).last() == rows@[i as int]);
        let r = &rows[i];
        let mut fields: Vec<String> = Vec::new();
        fields.push(r.occurred_at.clone());
        fields.push(opt_or_empty(&r.request_id));
        fields.push(r.actor_name.clone());
        fields.push(r.action.clone());
        fields.push(r.target_type.clone());
        fields.push(opt_or_empty(&r.target_id));
        fields.push(opt_or_empty(&r.system_name));
        fields.push(opt_or_empty(&r.tenant_name));
        fields.push(owned(r.result.as_str()));
        fields.push(opt_or_empty(&r.failure_reason));
        assert(fields.deep_view() =~= export_fields(rows@[i as int]));
        let line = csv_line(&fields);
        let mut lc = chars_of(line.as_str());
        out.append(&mut lc);
        i = i + 1;
    }
    assert(rows@.take(rows.len() as int) =~= rows@);
    string_of(out.as_slice())
}

/// The name under which an export is downloaded.
pub fn export_file_name(timestamp_millis: i64) -> (r: String)
    ensures
        r@ == "attachment; filename=\"audits_"@ + signed_decimal(timestamp_millis as int) + ".csv\""@,
{
    let d = signed_decimal_chars(timestamp_millis);
    let n = string_of(d.as_slice());
    let s = concat("attachment; filename=\"audits_", n.as_str());
    concat(s.as_str(), ".csv\"")
}

/// A code, username or the like that must not be taken yet: where it is, the request
/// conflicts with `message`.
pub fn ensure_unused(taken: bool, message: &str) -> (r: Result<(), AppError>)
    ensures
        taken ==> (r matches Err(AppError::Conflict(m)) && m@ == message@),
        !taken ==> r is Ok,
{
    if taken {
        Err(AppError::conflict(message))
    } else {
        Ok(())
    }
}

// ---------------------------------------------------------------------------
// Paging and request defaults
// ---------------------------------------------------------------------------

/// The page size clamped to 1..=100.
pub open spec fn page_size_spec(page_size: i64) -> i64 {
    if page_size < 1 {
        1
    } else if page_size > 100 {
        100
    } else {
        page_size
    }
}

/// The offset of the first row of `page` (pages count from 1; lower values mean 1).
pub open spec fn page_offset_spec(page: i64, page_size: i64) -> int {
    (if page < 1 { 0 } else { page - 1 }) * page_size_spec(page_size)
}

/// The row limit and offset of a page: the size is clamped to 1..=100 and pages
/// below 1 are the first page.
pub fn pagination_bounds(page: i64, page_size: i64) -> (r: (i64, i64))
    requires
        page_offset_spec(page, page_size) <= i64::MAX,
    ensures
        r.0 == page_size_spec(page_size),
        r.1 == page_offset_spec(page, page_size),
{
    let page = if page < 1 { 1 } else { page };
    let size = if page_size < 1 { 1 } else if page_size > 100 { 100 } else { page_size };
    assert(0 <= (page - 1) * size) by (nonlinear_arith)
        requires
            page >= 1,
            size >= 1,
    ;
    let offset = (page - 1) * size;
    (size, offset)
}

/// The row limit and offset of a page, as `pagination_bounds` gives them, where the
/// offset fits in an `i64`; a page further than that is refused as out of range.
pub fn page_bounds(page: i64, page_size: i64) -> (r: Result<(i64, i64), AppError>)
    ensures
        page_offset_spec(page, page_size) <= i64::MAX ==> r == Ok::<(i64, i64), AppError>(
            (page_size_spec(page_size) as i64, page_offset_spec(page, page_size) as i64),
        ),
        page_offset_spec(page, page_size) > i64::MAX ==> (r matches Err(AppError::ValidationFailed(m))
            && m@ == "PAGE_OUT_OF_RANGE"@),
{
    let p: i64 = if page < 1 { 1 } else { page };
    let size: i64 = if page_size < 1 { 1 } else if page_size > 100 { 100 } else { page_size };
    let steps: i128 = (p as i128) - 1;
    assert(0 <= steps * (size as i128) <= 0x7fff_ffff_ffff_ffff * 100) by (nonlinear_arith)
        requires
            0 <= steps <= 0x7fff_ffff_ffff_ffff,
            1 <= size <= 100,
    ;
    let offset: i128 = steps * (size as i128);
    assert(offset == page_offset_spec(page, page_size));
    if offset > 0x7fff_ffff_ffff_ffff {
        return Err(AppError::validation("PAGE_OUT_OF_RANGE"));
    }
    Ok(pagination_bounds(page, page_size))
}

/// The first page.
pub fn default_page() -> (r: i64)
    ensures
        r == 1,
{
    1
}

/// Twenty rows per page.
pub fn default_page_size() -> (r: i64)
    ensures
        r == 20,
{
    20
}

/// At most fifty audit events at once.
pub fn default_take() -> (r: i64)
    ensures
        r == 50,
{
    50
}

/// New tenants start active.
pub fn default_tenant_status() -> (r: TenantStatus)
    ensures
        r == TenantStatus::Active,
{
    TenantStatus::Active
}

/// New users start active.
pub fn default_user_status() -> (r: UserStatus)
    ensures
        r == UserStatus::Active,
{
    UserStatus::Active
}

/// New roles are custom.
pub fn default_role_type() -> (r: RoleType)
    ensures
        r == RoleType::Custom,
{
    RoleType::Custom
}

/// Assignments are for users unless stated.
pub fn default_subject_type() -> (r: SubjectType)
    ensures
        r == SubjectType::User,
{
    SubjectType::User
}

/// New systems start active.
pub fn default_system_status() -> (r: SystemStatus)
    ensures
        r == SystemStatus::Active,
{
    SystemStatus::Active
}

/// Integrations use JWTs unless stated.
pub fn default_auth_mode() -> (r: AuthMode)
    ensures
        r == AuthMode::Jwt,
{
    AuthMode::Jwt
}

/// Subsystem credentials live five minutes unless stated.
pub fn default_token_ttl() -> (r: i32)
    ensures
        r == 300,
{
    300
}

/// New sub-administrator grants start active.
pub fn default_grant_status() -> (r: GrantStatus)
    ensures
        r == GrantStatus::Active,
{
    GrantStatus::Active
}

/// Sub-administrators are system-level unless stated.
pub fn default_admin_type() -> (r: AdminType)
    ensures
        r == AdminType::System,
{
    AdminType::System
}

/// The permission matrix is shown by user unless stated.
pub fn default_matrix_view() -> (r: String)
    ensures
        r@ == "user"@,
{
    owned("user")
}

/// A permission request is about a missing permission unless stated.
pub fn default_reason() -> (r: String)
    ensures
        r@ == "no_permission"@,
{
    owned("no_permission")
}

/// After a permission request the user returns to the home page unless stated.
pub fn default_return_to() -> (r: String)
    ensures
        r@ == "/"@,
{
    owned("/")
}


// ---------------------------------------------------------------------------
// Batch operations on users
// ---------------------------------------------------------------------------

/// What a batch operation does to the chosen users.
#[derive(Clone, Copy, Debug, PartialEq, Eq, Structural)]
pub enum BatchAction {
    Enable,
    Disable,
    AssignRole,
    RemoveRole,
    AddToTenant,
    RemoveFromTenant,
}

/// The action named `name`, if there is one.
pub open spec fn batch_action_spec(name: Seq<char>) -> Option<BatchAction> {
    if name == "enable"@ {
        Some(BatchAction::Enable)
    } else if name == "disable"@ {
        Some(BatchAction::Disable)
    } else if name == "assignRole"@ {
        Some(BatchAction::AssignRole)
    } else if name == "removeRole"@ {
        Some(BatchAction::RemoveRole)
    } else if name == "addToTenant"@ {
        Some(BatchAction::AddToTenant)
    } else if name == "removeFromTenant"@ {
        Some(BatchAction::RemoveFromTenant)
    } else {
        None
    }
}

/// The action named `name`, if there is one.
pub fn batch_action(name: &str) -> (r: Option<BatchAction>)
    ensures
        r == batch_action_spec(name@),
{
    if text_eq(name, "enable") {
        Some(BatchAction::Enable)
    } else if text_eq(name, "disable") {
        Some(BatchAction::Disable)
    } else if text_eq(name, "assignRole") {
        Some(BatchAction::AssignRole)
    } else if text_eq(name, "removeRole") {
        Some(BatchAction::RemoveRole)
    } else if text_eq(name, "addToTenant") {
        Some(BatchAction::AddToTenant)
    } else if text_eq(name, "removeFromTenant") {
        Some(BatchAction::RemoveFromTenant)
    } else {
        None
    }
}

/// The name under which a batch action is requested.
pub open spec fn batch_action_name(a: BatchAction) -> Seq<char> {
    match a {
        BatchAction::Enable => "enable"@,
        BatchAction::Disable => "disable"@,
        BatchAction::AssignRole => "assignRole"@,
        BatchAction::RemoveRole => "removeRole"@,
        BatchAction::AddToTenant => "addToTenant"@,
        BatchAction::RemoveFromTenant => "removeFromTenant"@,
    }
}

/// Each action name stands for the action of that name and for no other: a name gives
/// an action exactly when it is that action's name, so distinct names never give the
/// same action, and a batch that is accepted runs the action it names.
pub proof fn law_batch_action_by_name(name: Seq<char>, a: BatchAction)
    ensures
        batch_action_spec(name) == Some(a) <==> name == batch_action_name(a),
        batch_action_spec(name) is None <==> (forall|b: BatchAction| name != #[trigger] batch_action_name(b)),
{
    reveal_strlit("enable");
    reveal_strlit("disable");
    reveal_strlit("assignRole");
    reveal_strlit("removeRole");
    reveal_strlit("addToTenant");
    reveal_strlit("removeFromTenant");
    assert("enable"@[0] != "disable"@[0] && "enable"@[0] != "assignRole"@[0] && "enable"@[0] != "removeRole"@[0]);
    assert("enable"@[0] != "addToTenant"@[0] && "enable"@[0] != "removeFromTenant"@[0]);
    assert("disable"@[0] != "assignRole"@[0] && "disable"@[0] != "removeRole"@[0]);
    assert("disable"@[0] != "addToTenant"@[0] && "disable"@[0] != "removeFromTenant"@[0]);
    assert("assignRole"@[0] != "removeRole"@[0] && "assignRole"@[1] != "addToTenant"@[1]);
    assert("assignRole"@[0] != "removeFromTenant"@[0] && "removeRole"@[0] != "addToTenant"@[0]);
    assert("removeRole"@[6] != "removeFromTenant"@[6] && "addToTenant"@[0] != "removeFromTenant"@[0]);
    if batch_action_spec(name) is None {
        assert forall|b: BatchAction| name != #[trigger] batch_action_name(b) by {
            match b {
                BatchAction::Enable => {},
                BatchAction::Disable => {},
                BatchAction::AssignRole => {},
                BatchAction::RemoveRole => {},
                BatchAction::AddToTenant => {},
                BatchAction::RemoveFromTenant => {},
            }
        }
    } else {
        let b = batch_action_spec(name).unwrap();
        assert(name == batch_action_name(b));
    }
}

/// An accepted batch request runs the action that its name names.
pub proof fn law_batch_runs_named_action(
    action: Seq<char>,
    user_ids: Seq<Seq<char>>,
    role_id: Option<Seq<char>>,
    tenant_id: Option<Seq<char>>,
)
    ensures
        batch_outcome(action, user_ids, role_id, tenant_id) matches Ok((a, _, _)) ==> action == batch_action_name(a),
{
    if let Some(a) = batch_action_spec(action) {
        law_batch_action_by_name(action, a);
    }
}

/// A validated batch operation: the action, the users it applies to and, for role and
/// tenant actions, the role or tenant.
#[derive(Debug)]
pub struct BatchPlan {
    pub action: BatchAction,
    pub user_ids: Vec<Id>,
    pub target_id: Option<Id>,
}

/// The identifiers that parse among `texts`, in order.
pub open spec fn parsed_ids(texts: Seq<Seq<char>>) -> Seq<Id>
    decreases texts.len(),
{
    if texts.len() == 0 {
        Seq::empty()
    } else {
        match uuid_parse(texts.last()) {
            Some(id) => parsed_ids(texts.drop_last()).push(id),
            None => parsed_ids(texts.drop_last()),
        }
    }
}

/// The identifiers that parse among `texts`, in order; the others are skipped.
pub fn parse_ids(texts: &Vec<String>) -> (r: Vec<Id>)
    ensures
        r@ == parsed_ids(texts.deep_view()),
{
    let mut r: Vec<Id> = Vec::new();
    let mut i: usize = 0;
    while i < texts.len()
        invariant
            i <= texts.len(),
            r@ == parsed_ids(texts.deep_view().take(i as int)),
        decreases texts.len() - i,
    {
        assert(texts.deep_view().take(i + 1).drop_last() =~= texts.deep_view().take(i as int));
        assert(texts.deep_view().take(i + 1).last() == texts.deep_view()[i as int]);
        match parse_id(texts[i].as_str()) {
            Some(id) => r.push(id),
            None => {},
        }
        i = i + 1;
    }
    assert(texts.deep_view().take(texts.len() as int) =~= texts.deep_view());
    r
}

/// The role or tenant a batch action needs, with the message for its absence.
pub open spec fn batch_target_message(a: BatchAction) -> Option<Seq<char>> {
    match a {
        BatchAction::AssignRole | BatchAction::RemoveRole => Some("ROLE_ID_REQUIRED"@),
        BatchAction::AddToTenant | BatchAction::RemoveFromTenant => Some("TENANT_ID_REQUIRED"@),
        _ => None,
    }
}

/// The identifier in an optional text, if it is there and parses.
pub open spec fn opt_id(o: Option<Seq<char>>) -> Option<Id> {
    match o {
        Some(t) => uuid_parse(t),
        None => None,
    }
}

/// The characters of an optional text.
pub open spec fn opt_text(o: Option<String>) -> Option<Seq<char>> {
    match o {
        Some(s) => Some(s@),
        None => None,
    }
}

/// The outcome of a batch request, checked in this order: the action must be known,
/// some user must be named, some named user must parse, and role or tenant actions
/// need a role or tenant that parses.
pub open spec fn batch_outcome(
    action: Seq<char>,
    user_ids: Seq<Seq<char>>,
    role_id: Option<Seq<char>>,
    tenant_id: Option<Seq<char>>,
) -> Result<(BatchAction, Seq<Id>, Option<Id>), Seq<char>> {
    match batch_action_spec(action) {
        None => Err("INVALID_ACTION"@),
        Some(a) => if user_ids.len() == 0 {
            Err("USER_IDS_REQUIRED"@)
        } else if parsed_ids(user_ids).len() == 0 {
            Err("NO_MATCHING_USERS"@)
        } else {
            match batch_target_message(a) {
                None => Ok((a, parsed_ids(user_ids), None)),
                Some(msg) => {
                    let t = match a {
                        BatchAction::AssignRole | BatchAction::RemoveRole => opt_id(role_id),
                        _ => opt_id(tenant_id),
                    };
                    match t {
                        Some(id) => Ok((a, parsed_ids(user_ids), Some(id))),
                        None => Err(msg),
                    }
                },
            }
        },
    }
}

fn parse_opt_id(o: &Option<String>) -> (r: Option<Id>)
    ensures
        r == opt_id(opt_text(*o)),
{
    match o {
        Some(s) => parse_id(s.as_str()),
        None => None,
    }
}

/// Checks a batch request; every failure is a validation failure with the message of
/// `batch_outcome`.
pub fn plan_batch(
    action: &str,
    user_ids: &Vec<String>,
    role_id: &Option<String>,
    tenant_id: &Option<String>,
) -> (r: Result<BatchPlan, AppError>)
    ensures
        match batch_outcome(action@, user_ids.deep_view(), opt_text(*role_id), opt_text(*tenant_id)) {
            Ok((a, ids, t)) => r matches Ok(p) && p.action == a && p.user_ids@ == ids && p.target_id == t,
            Err(msg) => r matches Err(AppError::ValidationFailed(m)) && m@ == msg,
        },
{
    let a = match batch_action(action) {
        Some(a) => a,
        None => return Err(AppError::validation("INVALID_ACTION")),
    };
    if user_ids.len() == 0 {
        return Err(AppError::validation("USER_IDS_REQUIRED"));
    }
    let ids = parse_ids(user_ids);
    if ids.len() == 0 {
        return Err(AppError::validation("NO_MATCHING_USERS"));
    }
    match a {
        BatchAction::AssignRole | BatchAction::RemoveRole => match parse_opt_id(role_id) {
            Some(id) => Ok(BatchPlan { action: a, user_ids: ids, target_id: Some(id) }),
            None => Err(AppError::validation("ROLE_ID_REQUIRED")),
        },
        BatchAction::AddToTenant | BatchAction::RemoveFromTenant => match parse_opt_id(tenant_id) {
            Some(id) => Ok(BatchPlan { action: a, user_ids: ids, target_id: Some(id) }),
            None => Err(AppError::validation("TENANT_ID_REQUIRED")),
        },
        _ => Ok(BatchPlan { action: a, user_ids: ids, target_id: None }),
    }
}

/// The audit action recorded for a batch: disabling users is told apart.
pub fn batch_audit_action(action: BatchAction) -> (r: String)
    ensures
        r@ == (if action == BatchAction::Disable { "user.batch.disable"@ } else { "user.batch"@ }),
{
    if action == BatchAction::Disable {
        owned("user.batch.disable")
    } else {
        owned("user.batch")
    }
}

// ---------------------------------------------------------------------------
// Permission matrix
// ---------------------------------------------------------------------------

/// The matrix view asked for, or `user` where it is none of `user`, `role`, `tenant`, `system`.
pub open spec fn matrix_view_spec(view: Seq<char>) -> Seq<char> {
    if view == "user"@ || view == "role"@ || view == "tenant"@ || view == "system"@ {
        view
    } else {
        "user"@
    }
}

/// Normalizes the matrix view.
pub fn matrix_view(view: &str) -> (r: String)
    ensures
        r@ == matrix_view_spec(view@),
{
    if text_eq(view, "user") || text_eq(view, "role") || text_eq(view, "tenant") || text_eq(view, "system") {
        owned(view)
    } else {
        owned("user")
    }
}

/// The tenant the matrix is shown for: the one asked for; in the user and role views
/// the first active tenant where none is asked for.
pub fn matrix_tenant(view: &str, requested: Option<Id>, tenants: &Vec<Id>) -> (r: Option<Id>)
    ensures
        r == (if requested.is_none() && (view@ == "user"@ || view@ == "role"@) && tenants.len() > 0 {
            Some(tenants[0])
        } else {
            requested
        }),
{
    if requested.is_none() && (text_eq(view, "user") || text_eq(view, "role")) && tenants.len() > 0 {
        Some(tenants[0])
    } else {
        requested
    }
}

/// The text of an optional identifier, `null` where there is none.
pub open spec fn opt_id_text(o: Option<Id>) -> Seq<char> {
    match o {
        Some(id) => id_text_spec(id),
        None => "null"@,
    }
}

/// The key of a matrix cell: `subject_type:subject:tenant:system`.
pub open spec fn matrix_key_spec(subject_type: Seq<char>, subject: Id, tenant: Option<Id>, system: Id) -> Seq<char> {
    subject_type + seq![':'] + id_text_spec(subject) + seq![':'] + opt_id_text(tenant) + seq![':']
        + id_text_spec(system)
}

fn push_all_chars(out: &mut Vec<char>, s: &str)
    ensures
        final(out)@ == old(out)@ + s@,
{
    let cs = chars_of(s);
    let ghost start = out@;
    let mut i: usize = 0;
    while i < cs.len()
        invariant
            i <= cs.len(),
            cs@ == s@,
            out@ == start + cs@.take(i as int),
        decreases cs.len() - i,
    {
        out.push(cs[i]);
        assert(out@ =~= start + cs@.take(i + 1));
        i = i + 1;
    }
    assert(cs@.take(cs.len() as int) =~= cs@);
}

fn opt_id_string(o: Option<Id>) -> (r: String)
    ensures
        r@ == opt_id_text(o),
{
    match o {
        Some(id) => id_text(id),
        None => owned("null"),
    }
}

/// The key of a matrix cell.
pub fn matrix_key(subject_type: &str, subject: Id, tenant: Option<Id>, system: Id) -> (r: String)
    ensures
        r@ == matrix_key_spec(subject_type@, subject, tenant, system),
{
    let mut out: Vec<char> = Vec::new();
    push_all_chars(&mut out, subject_type);
    out.push(':');
    push_all_chars(&mut out, id_text(subject).as_str());
    out.push(':');
    push_all_chars(&mut out, opt_id_string(tenant).as_str());
    out.push(':');
    push_all_chars(&mut out, id_text(system).as_str());
    assert(out@ =~= matrix_key_spec(subject_type@, subject, tenant, system));
    string_of(out.as_slice())
}

/// The key under which a saved or previewed assignment change is reported: the cell key
/// followed by the assignment's id, or `new`.
pub fn change_key(subject_type: &str, subject: Id, tenant: Option<Id>, system: Id, id: &Option<String>) -> (r: String)
    ensures
        r@ == matrix_key_spec(subject_type@, subject, tenant, system) + seq![':'] + match id {
            Some(s) => s@,
            None => "new"@,
        },
{
    let mut out: Vec<char> = Vec::new();
    push_all_chars(&mut out, matrix_key(subject_type, subject, tenant, system).as_str());
    out.push(':');
    match id {
        Some(s) => push_all_chars(&mut out, s.as_str()),
        None => push_all_chars(&mut out, "new"),
    }
    string_of(out.as_slice())
}

/// How the stored assignment that a change replaces is found.
#[derive(Clone, Copy, Debug, PartialEq, Eq, Structural)]
pub enum AssignmentLookup {
    /// By the id that the change names.
    ById(Id),
    /// By subject, tenant and system, where the change names no id.
    ByCell,
    /// None is looked for: the change names an id that is not a UUID, and is stored
    /// as a new assignment.
    Missing,
}

/// Where an assignment change applies.
#[derive(Clone, Copy, Debug, PartialEq, Eq, Structural)]
pub struct AssignmentTarget {
    pub subject: Id,
    pub tenant: Option<Id>,
    pub system: Id,
    pub lookup: AssignmentLookup,
}

/// Where an assignment change applies. The system must be a UUID, else the change is
/// refused with `SYSTEM_NOT_FOUND`; a subject that is absent or not a UUID stands for
/// the system itself; a tenant that is absent or not a UUID means all tenants.
pub fn resolve_assignment(
    id: &Option<String>,
    subject_id: &Option<String>,
    tenant_id: &Option<String>,
    system_id: &str,
) -> (r: Result<AssignmentTarget, AppError>)
    ensures
        match uuid_parse(system_id@) {
            None => r matches Err(AppError::ValidationFailed(m)) && m@ == "SYSTEM_NOT_FOUND"@,
            Some(sys) => r matches Ok(t) && t.system == sys && t.subject == match opt_id(opt_text(*subject_id)) {
                Some(u) => u,
                None => sys,
            } && t.tenant == opt_id(opt_text(*tenant_id)) && t.lookup == match id {
                None => AssignmentLookup::ByCell,
                Some(s) => match uuid_parse(s@) {
                    Some(i) => AssignmentLookup::ById(i),
                    None => AssignmentLookup::Missing,
                },
            },
        },
{
    let system = match parse_id(system_id) {
        Some(s) => s,
        None => return Err(AppError::validation("SYSTEM_NOT_FOUND")),
    };
    let subject = match parse_opt_id(subject_id) {
        Some(u) => u,
        None => system,
    };
    let tenant = parse_opt_id(tenant_id);
    let lookup = match id {
        None => AssignmentLookup::ByCell,
        Some(s) => match parse_id(s.as_str()) {
            Some(i) => AssignmentLookup::ById(i),
            None => AssignmentLookup::Missing,
        },
    };
    Ok(AssignmentTarget { subject, tenant, system, lookup })
}

/// What previewing an assignment change reports: `create` where nothing is stored yet,
/// else `update` or `unchanged` as the JSON texts of the stored and the proposed
/// settings differ or not.
pub fn diff_action(existing: bool, before_json: &str, after_json: &str) -> (r: &'static str)
    ensures
        r@ == (if !existing {
            "create"@
        } else if before_json@ != after_json@ {
            "update"@
        } else {
            "unchanged"@
        }),
{
    if !existing {
        "create"
    } else if !text_eq(before_json, after_json) {
        "update"
    } else {
        "unchanged"
    }
}

/// The systems named by a role's new assignments must all exist: where some are
/// named, as many systems must be found as there are readable ids, a repeated id
/// counted each time, else `NotFound`.
pub fn check_systems_found(named: usize, found: i64) -> (r: Result<(), AppError>)
    ensures
        (named == 0 || found == named as int) ==> r is Ok,
        (named > 0 && found != named as int) ==> (r matches Err(AppError::NotFound)),
{
    if named > 0 && (found as i128) != (named as i128) {
        Err(AppError::NotFound)
    } else {
        Ok(())
    }
}

/// The position of the last of `keys` equal to `key`: the assignment that a cell of the
/// matrix shows where several share its key.
pub open spec fn last_index(keys: Seq<Seq<char>>, key: Seq<char>) -> Option<int>
    decreases keys.len(),
{
    if keys.len() == 0 {
        None
    } else if keys.last() == key {
        Some(keys.len() - 1)
    } else {
        last_index(keys.drop_last(), key)
    }
}

/// A position as a mathematical integer.
pub open spec fn opt_index(o: Option<usize>) -> Option<int> {
    match o {
        Some(i) => Some(i as int),
        None => None,
    }
}

/// The position of the last of `keys` equal to `key`, if any.
pub fn find_last(keys: &Vec<String>, key: &str) -> (r: Option<usize>)
    ensures
        opt_index(r) == last_index(keys.deep_view(), key@),
{
    let mut found: Option<usize> = None;
    let mut i: usize = 0;
    while i < keys.len()
        invariant
            i <= keys.len(),
            opt_index(found) == last_index(keys.deep_view().take(i as int), key@),
        decreases keys.len() - i,
    {
        assert(keys.deep_view().take(i + 1).drop_last() =~= keys.deep_view().take(i as int));
        assert(keys.deep_view().take(i + 1).last() == keys.deep_view()[i as int]);
        if text_eq(keys[i].as_str(), key) {
            found = Some(i);
        }
        i = i + 1;
    }
    assert(keys.deep_view().take(keys.len() as int) =~= keys.deep_view());
    found
}

/// The permission matrix for one kind of subject: for each subject, in order, and each
/// subsystem, in order, the position among the loaded assignments' keys of the one
/// that the cell shows, or none where the cell is empty.
pub fn matrix_grid(
    subject_type: &str,
    subjects: &Vec<Id>,
    tenant: Option<Id>,
    systems: &Vec<Id>,
    keys: &Vec<String>,
) -> (r: Vec<Vec<Option<usize>>>)
    ensures
        r.len() == subjects.len(),
        forall|i: int| 0 <= i < r.len() ==> (#[trigger] r[i]).len() == systems.len(),
        forall|i: int, j: int| 0 <= i < r.len() && 0 <= j < systems.len() ==> opt_index(#[trigger] r[i][j])
            == last_index(keys.deep_view(), matrix_key_spec(subject_type@, subjects[i], tenant, systems[j])),
{
    let mut rows: Vec<Vec<Option<usize>>> = Vec::new();
    let mut i: usize = 0;
    while i < subjects.len()
        invariant
            i <= subjects.len(),
            rows.len() == i,
            forall|a: int| 0 <= a < i ==> (#[trigger] rows[a]).len() == systems.len(),
            forall|a: int, b: int| 0 <= a < i && 0 <= b < systems.len() ==> opt_index(#[trigger] rows[a][b])
                == last_index(keys.deep_view(), matrix_key_spec(subject_type@, subjects[a], tenant, systems[b])),
        decreases subjects.len() - i,
    {
        let mut cells: Vec<Option<usize>> = Vec::new();
        let mut j: usize = 0;
        while j < systems.len()
            invariant
                i < subjects.len(),
                j <= systems.len(),
                cells.len() == j,
                forall|b: int| 0 <= b < j ==> opt_index(#[trigger] cells[b]) == last_index(
                    keys.deep_view(),
                    matrix_key_spec(subject_type@, subjects[i as int], tenant, systems[b]),
                ),
            decreases systems.len() - j,
        {
            let key = matrix_key(subject_type, subjects[i], tenant, systems[j]);
            cells.push(find_last(keys, key.as_str()));
            j = j + 1;
        }
        rows.push(cells);
        i = i + 1;
    }
    rows
}

/// The matrix of the subsystem view: for each subsystem, in order, and each active
/// tenant, in order, the position of the tenant's own assignment for the subsystem
/// (key `tenant:<tenant>:<tenant>:<system>`), or none.
pub fn system_view_grid(systems: &Vec<Id>, tenants: &Vec<Id>, keys: &Vec<String>) -> (r: Vec<Vec<Option<usize>>>)
    ensures
        r.len() == systems.len(),
        forall|i: int| 0 <= i < r.len() ==> (#[trigger] r[i]).len() == tenants.len(),
        forall|i: int, j: int| 0 <= i < r.len() && 0 <= j < tenants.len() ==> opt_index(#[trigger] r[i][j])
            == last_index(keys.deep_view(), matrix_key_spec("tenant"@, tenants[j], Some(tenants[j]), systems[i])),
{
    let mut rows: Vec<Vec<Option<usize>>> = Vec::new();
    let mut i: usize = 0;
    while i < systems.len()
        invariant
            i <= systems.len(),
            rows.len() == i,
            forall|a: int| 0 <= a < i ==> (#[trigger] rows[a]).len() == tenants.len(),
            forall|a: int, b: int| 0 <= a < i && 0 <= b < tenants.len() ==> opt_index(#[trigger] rows[a][b])
                == last_index(keys.deep_view(), matrix_key_spec("tenant"@, tenants[b], Some(tenants[b]), systems[a])),
        decreases systems.len() - i,
    {
        let mut cells: Vec<Option<usize>> = Vec::new();
        let mut j: usize = 0;
        while j < tenants.len()
            invariant
                i < systems.len(),
                j <= tenants.len(),
                cells.len() == j,
                forall|b: int| 0 <= b < j ==> opt_index(#[trigger] cells[b]) == last_index(
                    keys.deep_view(),
                    matrix_key_spec("tenant"@, tenants[b], Some(tenants[b]), systems[i as int]),
                ),
            decreases tenants.len() - j,
        {
            let key = matrix_key("tenant", tenants[j], Some(tenants[j]), systems[i]);
            cells.push(find_last(keys, key.as_str()));
            j = j + 1;
        }
        rows.push(cells);
        i = i + 1;
    }
    rows
}

/// The tenant whose effective permissions an administrator inspects: the one asked
/// for where it parses, else the user's default tenant, else the user's first active
/// membership in an active tenant; with none of them, `NO_ACTIVE_TENANT`.
pub fn effective_tenant(requested: Option<Id>, default_tenant: Option<Id>, first_active: Option<Id>) -> (r: Result<Id, AppError>)
    ensures
        match (requested, default_tenant, first_active) {
            (Some(t), _, _) => r == Ok::<Id, AppError>(t),
            (None, Some(t), _) => r == Ok::<Id, AppError>(t),
            (None, None, Some(t)) => r == Ok::<Id, AppError>(t),
            (None, None, None) => r matches Err(AppError::ValidationFailed(m)) && m@ == "NO_ACTIVE_TENANT"@,
        },
{
    match requested {
        Some(t) => Ok(t),
        None => match default_tenant {
            Some(t) => Ok(t),
            None => match first_active {
                Some(t) => Ok(t),
                None => Err(AppError::validation("NO_ACTIVE_TENANT")),
            },
        },
    }
}

/// The user whose effective permissions an administrator inspects; a text that is not
/// a UUID is refused with `MISSING_PARAMS`.
pub fn effective_user(user_id: &str) -> (r: Result<Id, AppError>)
    ensures
        match uuid_parse(user_id@) {
            Some(u) => r == Ok::<Id, AppError>(u),
            None => r matches Err(AppError::ValidationFailed(m)) && m@ == "MISSING_PARAMS"@,
        },
{
    match parse_id(user_id) {
        Some(u) => Ok(u),
        None => Err(AppError::validation("MISSING_PARAMS")),
    }
}

// ---------------------------------------------------------------------------
// Integration check
// ---------------------------------------------------------------------------

/// Whether `url::Url::parse` accepts a text as an absolute URL.
pub uninterp spec fn url_parses(s: Seq<char>) -> bool;

/// Parses a text with `url::Url::parse` and tells whether it succeeded; the result is
/// named by `url_parses`, what the WHATWG URL parser accepts is left to the `url` crate.
#[verifier::external_body]
fn url_is_valid(s: &str) -> (r: bool)
    ensures
        r == url_parses(s@),
{
    url::Url::parse(s).is_ok()
}

/// The result of checking a subsystem's integration settings.
#[derive(Debug)]
pub struct IntegrationCheck {
    pub system_code: String,
    pub callback_url: Option<String>,
    pub auth_mode: AuthMode,
    pub system_code_matches: bool,
    pub callback_url_valid: bool,
    pub auth_mode_supported: bool,
    pub passed: bool,
    pub message: String,
}

/// Checks the settings to be used for a subsystem: each given setting replaces the
/// stored one (authorization codes where neither is there); the code must be the
/// system's own, the callback URL must parse, and both authentication modes are supported.
pub fn check_integration(
    requested_code: &Option<String>,
    system_code: &str,
    requested_callback: &Option<String>,
    stored_callback: &Option<String>,
    requested_mode: Option<AuthMode>,
    stored_mode: Option<AuthMode>,
) -> (r: IntegrationCheck)
    ensures
        r.system_code@ == match requested_code {
            Some(c) => c@,
            None => system_code@,
        },
        opt_text(r.callback_url) == match requested_callback {
            Some(c) => Some(c@),
            None => opt_text(*stored_callback),
        },
        r.auth_mode == match requested_mode {
            Some(m) => m,
            None => match stored_mode {
                Some(m) => m,
                None => AuthMode::AuthorizationCode,
            },
        },
        r.system_code_matches == (r.system_code@ == system_code@),
        r.callback_url_valid == match r.callback_url {
            Some(u) => url_parses(u@),
            None => false,
        },
        r.auth_mode_supported,
        r.passed == (r.system_code_matches && r.callback_url_valid),
        r.message@ == (if r.passed { "接入检查通过"@ } else { "接入检查未通过"@ }),
{
    let code = match requested_code {
        Some(c) => c.clone(),
        None => owned(system_code),
    };
    let callback = match requested_callback {
        Some(c) => Some(c.clone()),
        None => match stored_callback {
            Some(c) => Some(c.clone()),
            None => None,
        },
    };
    let mode = match requested_mode {
        Some(m) => m,
        None => match stored_mode {
            Some(m) => m,
            None => AuthMode::AuthorizationCode,
        },
    };
    let code_matches = text_eq(code.as_str(), system_code);
    let url_valid = match &callback {
        Some(u) => url_is_valid(u.as_str()),
        None => false,
    };
    let mode_supported = match mode {
        AuthMode::Jwt | AuthMode::AuthorizationCode => true,
    };
    let passed = code_matches && url_valid && mode_supported;
    let message = if passed { owned("接入检查通过") } else { owned("接入检查未通过") };
    IntegrationCheck {
        system_code: code,
        callback_url: callback,
        auth_mode: mode,
        system_code_matches: code_matches,
        callback_url_valid: url_valid,
        auth_mode_supported: mode_supported,
        passed,
        message,
    }
}

} // verus!
