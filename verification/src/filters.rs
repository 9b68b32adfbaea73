//! The WHERE clauses of the console's list and export queries, built from the filters
//! that a request gives; and the sizes of the pages that they return.

use vstd::prelude::*;
use crate::model::Id;
use crate::admin::{sanitize_like, sanitize_like_spec, sanitize_literal_spec};
use crate::ids::{parse_id, uuid_parse, id_text, id_text_spec};
use crate::sql::{occurs_in, lemma_present_contains, lemma_present_push, lemma_join_occurs, assign, named, quoted, present, text_set, text_assignment, named_value, assignment, keep_present, quote};
use crate::text::{chars_of, string_of, owned, concat, join, join_strings};

verus! {

// ---------------------------------------------------------------------------
// Conditions
// ---------------------------------------------------------------------------

/// `column ILIKE '%pattern%'`, with the pattern's wildcards and quotes escaped.
pub open spec fn ilike(column: Seq<char>, pattern: Seq<char>) -> Seq<char> {
    column + " ILIKE '%"@ + sanitize_like_spec(pattern) + "%'"@
}

/// The condition that a column contains the given text, where one is given.
pub open spec fn like_set(column: Seq<char>, v: Option<Seq<char>>) -> Option<Seq<char>> {
    match v {
        Some(x) => Some(ilike(column, x)),
        None => None,
    }
}

/// `column ILIKE '%pattern%'` for each column.
pub open spec fn ilikes(columns: Seq<Seq<char>>, pattern: Seq<char>) -> Seq<Seq<char>> {
    Seq::new(columns.len(), |i: int| ilike(columns[i], pattern))
}

/// The condition that one of the columns contains the keyword, where one is given.
pub open spec fn keyword_set(columns: Seq<Seq<char>>, v: Option<Seq<char>>) -> Option<Seq<char>> {
    match v {
        Some(k) => Some("("@ + join(ilikes(columns, k), " OR "@) + ")"@),
        None => None,
    }
}

/// The condition that a column holds the given identifier, where one is given and is a
/// UUID; a text that is not a UUID filters nothing.
pub open spec fn id_set(column: Seq<char>, v: Option<Seq<char>>) -> Option<Seq<char>> {
    match v {
        Some(s) => match uuid_parse(s) {
            Some(id) => Some(assign(column, named(id_text_spec(id)))),
            None => None,
        },
        None => None,
    }
}

/// `column op 'value'` for a bound given as text, where one is given.
pub open spec fn bound_set(column: Seq<char>, op: Seq<char>, v: Option<Seq<char>>) -> Option<Seq<char>> {
    match v {
        Some(x) => Some(column + " "@ + op + " "@ + named(x)),
        None => None,
    }
}

/// The conditions that are present after `first`, joined by `AND`.
pub open spec fn where_sql(first: Seq<char>, conditions: Seq<Option<Seq<char>>>) -> Seq<char> {
    join(seq![first] + present(conditions), " AND "@)
}

fn ilike_text(column: &str, pattern: &str) -> (r: String)
    ensures
        r@ == ilike(column@, pattern@),
{
    let s = concat(column, " ILIKE '%");
    let p = sanitize_like(pattern);
    let s = concat(s.as_str(), p.as_str());
    concat(s.as_str(), "%'")
}

/// The condition that a column contains the given text, where one is given.
pub fn like_condition(column: &str, v: &Option<String>) -> (r: Option<String>)
    ensures
        r.deep_view() == like_set(column@, v.deep_view()),
{
    match v {
        Some(x) => Some(ilike_text(column, x.as_str())),
        None => None,
    }
}

/// The condition that one of the columns contains the keyword, where one is given.
pub fn keyword_condition(columns: &Vec<String>, v: &Option<String>) -> (r: Option<String>)
    ensures
        r.deep_view() == keyword_set(columns.deep_view(), v.deep_view()),
{
    match v {
        Some(k) => {
            let mut parts: Vec<String> = Vec::new();
            let mut i: usize = 0;
            while i < columns.len()
                invariant
                    i <= columns.len(),
                    parts.deep_view() == ilikes(columns.deep_view().take(i as int), k@),
                decreases columns.len() - i,
            {
                let ghost before = parts.deep_view();
                assert(columns.deep_view()[i as int] == columns[i as int]@);
                parts.push(ilike_text(columns[i].as_str(), k.as_str()));
                assert(parts.deep_view() =~= before.push(ilike(columns.deep_view()[i as int], k@)));
                assert(parts.deep_view() =~= ilikes(columns.deep_view().take(i + 1), k@));
                i = i + 1;
            }
            assert(columns.deep_view().take(columns.len() as int) =~= columns.deep_view());
            let joined = join_strings(&parts, " OR ");
            let s = concat("(", joined.as_str());
            Some(concat(s.as_str(), ")"))
        },
        None => None,
    }
}

/// The condition that a column holds the given identifier, where it is a UUID.
pub fn id_condition(column: &str, v: &Option<String>) -> (r: Option<String>)
    ensures
        r.deep_view() == id_set(column@, v.deep_view()),
{
    match v {
        Some(s) => match parse_id(s.as_str()) {
            Some(id) => {
                let q = named_value(id_text(id).as_str());
                Some(assignment(column, q.as_str()))
            },
            None => None,
        },
        None => None,
    }
}

/// `column op 'value'`, where a value is given.
pub fn bound_condition(column: &str, op: &str, v: &Option<String>) -> (r: Option<String>)
    ensures
        r.deep_view() == bound_set(column@, op@, v.deep_view()),
{
    match v {
        Some(x) => {
            let s = concat(column, " ");
            let s = concat(s.as_str(), op);
            let s = concat(s.as_str(), " ");
            let q = named_value(x.as_str());
            Some(concat(s.as_str(), q.as_str()))
        },
        None => None,
    }
}

/// The conditions that are present after `first`, joined by `AND`.
pub fn where_clause(first: &str, conditions: &Vec<Option<String>>) -> (r: String)
    ensures
        r@ == where_sql(first@, conditions.deep_view()),
{
    let rest = keep_present(conditions);
    let mut all: Vec<String> = Vec::new();
    all.push(owned(first));
    let mut i: usize = 0;
    while i < rest.len()
        invariant
            i <= rest.len(),
            all.deep_view() == seq![first@] + rest.deep_view().take(i as int),
        decreases rest.len() - i,
    {
        let ghost before = all.deep_view();
        assert(rest.deep_view()[i as int] == rest[i as int]@);
        all.push(rest[i].clone());
        assert(all.deep_view() =~= before.push(rest.deep_view()[i as int]));
        assert(all.deep_view() =~= seq![first@] + rest.deep_view().take(i + 1));
        i = i + 1;
    }
    assert(rest.deep_view().take(rest.len() as int) =~= rest.deep_view());
    join_strings(&all, " AND ")
}

fn columns(names: &[&str]) -> (r: Vec<String>)
    ensures
        r.len() == names.len(),
        forall|i: int| 0 <= i < names.len() ==> (#[trigger] r[i])@ == names[i]@,
{
    let mut out: Vec<String> = Vec::new();
    let mut i: usize = 0;
    while i < names.len()
        invariant
            i <= names.len(),
            out.len() == i,
            forall|j: int| 0 <= j < i ==> (#[trigger] out[j])@ == names[j]@,
        decreases names.len() - i,
    {
        out.push(owned(names[i]));
        i = i + 1;
    }
    out
}

// ---------------------------------------------------------------------------
// The console's lists
// ---------------------------------------------------------------------------

/// The filters of the account list.
#[derive(Debug)]
pub struct UserFilter {
    pub keyword: Option<String>,
    pub status: Option<String>,
    pub role_code: Option<String>,
    pub tenant_id: Option<String>,
    pub system_code: Option<String>,
    pub organization_path: Option<String>,
}

/// Accounts that hold the named role for all tenants.
pub open spec fn role_member_set(v: Option<Seq<char>>) -> Option<Seq<char>> {
    match v {
        Some(code) => Some(
            "EXISTS (SELECT 1 FROM portal_user_roles ur JOIN portal_roles r ON r.id = ur.role_id WHERE ur.user_id = u.id AND ur.tenant_id IS NULL AND "@
                + assign("r.code"@, quoted(code)) + ")"@,
        ),
        None => None,
    }
}

/// Accounts that belong to the named tenant, where it is a UUID.
pub open spec fn tenant_member_set(v: Option<Seq<char>>) -> Option<Seq<char>> {
    match v {
        Some(s) => match uuid_parse(s) {
            Some(id) => Some(
                "EXISTS (SELECT 1 FROM portal_tenant_members tm WHERE tm.user_id = u.id AND "@
                    + assign("tm.tenant_id"@, named(id_text_spec(id))) + ")"@,
            ),
            None => None,
        },
        None => None,
    }
}

/// The account list's conditions: status, organization path, a keyword in username,
/// display name, e-mail or phone, a global role, a tenant. The subsystem filter is
/// accepted and has no effect.
pub open spec fn user_conditions(f: UserFilter) -> Seq<Option<Seq<char>>> {
    seq![
        text_set("u.status"@, f.status.deep_view()),
        like_set("u.organization_path"@, f.organization_path.deep_view()),
        keyword_set(seq!["u.username"@, "u.display_name"@, "u.email"@, "u.phone"@], f.keyword.deep_view()),
        role_member_set(f.role_code.deep_view()),
        tenant_member_set(f.tenant_id.deep_view()),
    ]
}

/// The WHERE clause of the account list.
pub fn user_where(f: &UserFilter) -> (r: String)
    ensures
        r@ == where_sql("1=1"@, user_conditions(*f)),
{
    let kw_cols = columns(&["u.username", "u.display_name", "u.email", "u.phone"]);
    assert(kw_cols.deep_view() =~= seq!["u.username"@, "u.display_name"@, "u.email"@, "u.phone"@]);
    let role = match &f.role_code {
        Some(code) => {
            let q = quote(code.as_str());
            let a = assignment("r.code", q.as_str());
            let s = concat(
                "EXISTS (SELECT 1 FROM portal_user_roles ur JOIN portal_roles r ON r.id = ur.role_id WHERE ur.user_id = u.id AND ur.tenant_id IS NULL AND ",
                a.as_str(),
            );
            Some(concat(s.as_str(), ")"))
        },
        None => None,
    };
    let tenant = match &f.tenant_id {
        Some(t) => match parse_id(t.as_str()) {
            Some(id) => {
                let q = named_value(id_text(id).as_str());
                let a = assignment("tm.tenant_id", q.as_str());
                let s = concat("EXISTS (SELECT 1 FROM portal_tenant_members tm WHERE tm.user_id = u.id AND ", a.as_str());
                Some(concat(s.as_str(), ")"))
            },
            None => None,
        },
        None => None,
    };
    let mut conds: Vec<Option<String>> = Vec::new();
    conds.push(text_assignment("u.status", &f.status));
    conds.push(like_condition("u.organization_path", &f.organization_path));
    conds.push(keyword_condition(&kw_cols, &f.keyword));
    conds.push(role);
    conds.push(tenant);
    assert(conds.deep_view() =~= user_conditions(*f));
    where_clause("1=1", &conds)
}

/// The filters of the tenant, role, subsystem and integration lists.
#[derive(Debug)]
pub struct ListFilter {
    pub keyword: Option<String>,
    pub status: Option<String>,
    pub category: Option<String>,
    pub role_type: Option<String>,
}

/// A keyword in code or name.
pub open spec fn code_or_name(v: Option<Seq<char>>) -> Option<Seq<char>> {
    keyword_set(seq!["code"@, "name"@], v)
}

fn code_or_name_condition(v: &Option<String>) -> (r: Option<String>)
    ensures
        r.deep_view() == code_or_name(v.deep_view()),
{
    let cols = columns(&["code", "name"]);
    assert(cols.deep_view() =~= seq!["code"@, "name"@]);
    keyword_condition(&cols, v)
}

/// The tenant list's conditions: status, then a keyword in code or name.
pub open spec fn tenant_conditions(f: ListFilter) -> Seq<Option<Seq<char>>> {
    seq![text_set("status"@, f.status.deep_view()), code_or_name(f.keyword.deep_view())]
}

/// The WHERE clause of the tenant list.
pub fn tenant_where(f: &ListFilter) -> (r: String)
    ensures
        r@ == where_sql("1=1"@, tenant_conditions(*f)),
{
    let mut conds: Vec<Option<String>> = Vec::new();
    conds.push(text_assignment("status", &f.status));
    conds.push(code_or_name_condition(&f.keyword));
    assert(conds.deep_view() =~= tenant_conditions(*f));
    where_clause("1=1", &conds)
}

/// The role list's conditions: role type, then a keyword in code or name.
pub open spec fn role_conditions(f: ListFilter) -> Seq<Option<Seq<char>>> {
    seq![text_set("role_type"@, f.role_type.deep_view()), code_or_name(f.keyword.deep_view())]
}

/// The WHERE clause of the role list.
pub fn role_where(f: &ListFilter) -> (r: String)
    ensures
        r@ == where_sql("1=1"@, role_conditions(*f)),
{
    let mut conds: Vec<Option<String>> = Vec::new();
    conds.push(text_assignment("role_type", &f.role_type));
    conds.push(code_or_name_condition(&f.keyword));
    assert(conds.deep_view() =~= role_conditions(*f));
    where_clause("1=1", &conds)
}

/// The subsystem list's conditions: status, category, then a keyword in code or name.
pub open spec fn system_conditions(f: ListFilter) -> Seq<Option<Seq<char>>> {
    seq![
        text_set("status"@, f.status.deep_view()),
        like_set("category"@, f.category.deep_view()),
        code_or_name(f.keyword.deep_view()),
    ]
}

/// The WHERE clause of the subsystem list.
pub fn system_where(f: &ListFilter) -> (r: String)
    ensures
        r@ == where_sql("1=1"@, system_conditions(*f)),
{
    let mut conds: Vec<Option<String>> = Vec::new();
    conds.push(text_assignment("status", &f.status));
    conds.push(like_condition("category", &f.category));
    conds.push(code_or_name_condition(&f.keyword));
    assert(conds.deep_view() =~= system_conditions(*f));
    where_clause("1=1", &conds)
}

/// The WHERE clause of the integration list: portal-managed subsystems, by status and
/// a keyword in code or name.
pub fn integration_where(f: &ListFilter) -> (r: String)
    ensures
        r@ == where_sql("portal_managed = true"@, tenant_conditions(*f)),
{
    let mut conds: Vec<Option<String>> = Vec::new();
    conds.push(text_assignment("status", &f.status));
    conds.push(code_or_name_condition(&f.keyword));
    assert(conds.deep_view() =~= tenant_conditions(*f));
    where_clause("portal_managed = true", &conds)
}

/// The filters of the sub-administrator list.
#[derive(Debug)]
pub struct GrantFilter {
    pub status: Option<String>,
    pub system_code: Option<String>,
    pub tenant_id: Option<String>,
    pub user_id: Option<String>,
    pub keyword: Option<String>,
}

/// The sub-administrator list's conditions: status, subsystem code, tenant, user, then
/// a keyword in username or display name.
pub open spec fn grant_conditions(f: GrantFilter) -> Seq<Option<Seq<char>>> {
    seq![
        text_set("g.status"@, f.status.deep_view()),
        text_set("s.code"@, f.system_code.deep_view()),
        id_set("g.tenant_id"@, f.tenant_id.deep_view()),
        id_set("g.user_id"@, f.user_id.deep_view()),
        keyword_set(seq!["u.username"@, "u.display_name"@], f.keyword.deep_view()),
    ]
}

/// The WHERE clause of the sub-administrator list.
pub fn grant_where(f: &GrantFilter) -> (r: String)
    ensures
        r@ == where_sql("1=1"@, grant_conditions(*f)),
{
    let cols = columns(&["u.username", "u.display_name"]);
    assert(cols.deep_view() =~= seq!["u.username"@, "u.display_name"@]);
    let mut conds: Vec<Option<String>> = Vec::new();
    conds.push(text_assignment("g.status", &f.status));
    conds.push(text_assignment("s.code", &f.system_code));
    conds.push(id_condition("g.tenant_id", &f.tenant_id));
    conds.push(id_condition("g.user_id", &f.user_id));
    conds.push(keyword_condition(&cols, &f.keyword));
    assert(conds.deep_view() =~= grant_conditions(*f));
    where_clause("1=1", &conds)
}

/// The filters of the audit list and export; the time bounds are RFC 3339 timestamps.
#[derive(Debug)]
pub struct AuditFilter {
    pub occurred_at_from: Option<String>,
    pub occurred_at_to: Option<String>,
    pub actor_user_id: Option<String>,
    pub action: Option<String>,
    pub target_type: Option<String>,
    pub system_id: Option<String>,
    pub tenant_id: Option<String>,
    pub result: Option<String>,
}

/// The audit conditions: the time bounds, the actor, part of the action, the target
/// type, the subsystem, the tenant and the result.
pub open spec fn audit_conditions(f: AuditFilter) -> Seq<Option<Seq<char>>> {
    seq![
        bound_set("a.occurred_at"@, ">="@, f.occurred_at_from.deep_view()),
        bound_set("a.occurred_at"@, "<="@, f.occurred_at_to.deep_view()),
        id_set("a.actor_user_id"@, f.actor_user_id.deep_view()),
        like_set("a.action"@, f.action.deep_view()),
        text_set("a.target_type"@, f.target_type.deep_view()),
        id_set("a.system_id"@, f.system_id.deep_view()),
        id_set("a.tenant_id"@, f.tenant_id.deep_view()),
        text_set("a.result"@, f.result.deep_view()),
    ]
}

/// The WHERE clause of the audit list and export.
pub fn audit_where(f: &AuditFilter) -> (r: String)
    ensures
        r@ == where_sql("1=1"@, audit_conditions(*f)),
{
    let mut conds: Vec<Option<String>> = Vec::new();
    conds.push(bound_condition("a.occurred_at", ">=", &f.occurred_at_from));
    conds.push(bound_condition("a.occurred_at", "<=", &f.occurred_at_to));
    conds.push(id_condition("a.actor_user_id", &f.actor_user_id));
    conds.push(like_condition("a.action", &f.action));
    conds.push(text_assignment("a.target_type", &f.target_type));
    conds.push(id_condition("a.system_id", &f.system_id));
    conds.push(id_condition("a.tenant_id", &f.tenant_id));
    conds.push(text_assignment("a.result", &f.result));
    assert(conds.deep_view() =~= audit_conditions(*f));
    where_clause("1=1", &conds)
}

// ---------------------------------------------------------------------------
// What the filters mean
// ---------------------------------------------------------------------------

/// A condition that is given stands in the WHERE clause.
proof fn lemma_where_has(first: Seq<char>, conds: Seq<Option<Seq<char>>>, k: int)
    requires
        0 <= k < conds.len(),
        conds[k] is Some,
    ensures
        occurs_in(conds[k].unwrap(), where_sql(first, conds)),
{
    lemma_present_contains(conds, k);
    let p = present(conds);
    let j = choose|j: int| 0 <= j < p.len() && p[j] == conds[k].unwrap();
    let parts = seq![first] + p;
    assert(parts[j + 1] == p[j]);
    lemma_join_occurs(parts, " AND "@, j + 1);
}

/// A clause with one condition only: the first one, `AND`, that condition.
proof fn lemma_where_single(first: Seq<char>, conds: Seq<Option<Seq<char>>>, k: int)
    requires
        0 <= k < conds.len(),
        conds[k] is Some,
        forall|j: int| 0 <= j < conds.len() && j != k ==> conds[j] is None,
    ensures
        where_sql(first, conds) == first + " AND "@ + conds[k].unwrap(),
    decreases conds.len(),
{
    let x = conds[k].unwrap();
    assert(present(conds) =~= seq![x]) by {
        lemma_present_alone(conds, k);
    }
    let parts = seq![first] + seq![x];
    assert(parts.drop_last() =~= seq![first]);
    assert(join(parts.drop_last(), " AND "@) == first);
}

proof fn lemma_present_alone(conds: Seq<Option<Seq<char>>>, k: int)
    requires
        0 <= k < conds.len(),
        conds[k] is Some,
        forall|j: int| 0 <= j < conds.len() && j != k ==> conds[j] is None,
    ensures
        present(conds) == seq![conds[k].unwrap()],
    decreases conds.len(),
{
    let init = conds.drop_last();
    assert(conds =~= init.push(conds.last()));
    lemma_present_push(init, conds.last());
    if k == conds.len() - 1 {
        lemma_present_none(init);
        assert(Seq::<Seq<char>>::empty().push(conds[k].unwrap()) =~= seq![conds[k].unwrap()]);
    } else {
        assert(init[k] == conds[k]);
        assert forall|j: int| 0 <= j < init.len() && j != k implies init[j] is None by {
            assert(init[j] == conds[j]);
        }
        lemma_present_alone(init, k);
    }
}

proof fn lemma_present_none(conds: Seq<Option<Seq<char>>>)
    requires
        forall|j: int| 0 <= j < conds.len() ==> conds[j] is None,
    ensures
        present(conds) == Seq::<Seq<char>>::empty(),
    decreases conds.len(),
{
    if conds.len() > 0 {
        let init = conds.drop_last();
        assert forall|j: int| 0 <= j < init.len() implies init[j] is None by {
            assert(init[j] == conds[j]);
        }
        lemma_present_none(init);
    }
}

/// The identifier condition on `column` for a text that parses as a UUID.
pub open spec fn id_equals(column: Seq<char>, id: Id) -> Seq<char> {
    column + " = "@ + named(id_text_spec(id))
}

/// Every filter that is given constrains its own column as its name says: events from
/// `occurred_at_from` on (`a.occurred_at >= 'F'`) and up to `occurred_at_to`
/// (`a.occurred_at <= 'T'`), so that an event passes the time bounds when it lies
/// between them; the actor, subsystem and tenant by identifier, where the text is a
/// UUID; the target type and the result by equality; the action by containment.
/// The audit time bounds, written out.
proof fn lemma_time_bounds(x: Seq<char>)
    ensures
        bound_set("a.occurred_at"@, ">="@, Some(x)) == Some("a.occurred_at >= '"@ + x + "'"@),
        bound_set("a.occurred_at"@, "<="@, Some(x)) == Some("a.occurred_at <= '"@ + x + "'"@),
{
    reveal_strlit("a.occurred_at");
    reveal_strlit(" ");
    reveal_strlit(">=");
    reveal_strlit("<=");
    reveal_strlit("a.occurred_at >= '");
    reveal_strlit("a.occurred_at <= '");
    reveal_strlit("'");
    assert("a.occurred_at"@ + " "@ + ">="@ + " "@ + named(x) =~= "a.occurred_at >= '"@ + x + "'"@);
    assert("a.occurred_at"@ + " "@ + "<="@ + " "@ + named(x) =~= "a.occurred_at <= '"@ + x + "'"@);
}

/// The column prefixes of the audit conditions, written out.
proof fn lemma_audit_literals()
    ensures
        forall|k: Seq<char>| #[trigger] ilike("a.action"@, k) == "a.action ILIKE '%"@ + sanitize_like_spec(k) + "%'"@,
        forall|v: Seq<char>| #[trigger] assign("a.target_type"@, v) == "a.target_type = "@ + v,
        forall|v: Seq<char>| #[trigger] assign("a.result"@, v) == "a.result = "@ + v,
{
    reveal_strlit("a.action");
    reveal_strlit(" ILIKE '%");
    reveal_strlit("a.action ILIKE '%");
    reveal_strlit("a.target_type");
    reveal_strlit("a.result");
    reveal_strlit(" = ");
    reveal_strlit("a.target_type = ");
    reveal_strlit("a.result = ");
    assert forall|k: Seq<char>| #[trigger] ilike("a.action"@, k) == "a.action ILIKE '%"@ + sanitize_like_spec(k) + "%'"@ by {
        assert(ilike("a.action"@, k) =~= "a.action ILIKE '%"@ + sanitize_like_spec(k) + "%'"@);
    }
    assert forall|v: Seq<char>| #[trigger] assign("a.target_type"@, v) == "a.target_type = "@ + v by {
        assert(assign("a.target_type"@, v) =~= "a.target_type = "@ + v);
    }
    assert forall|v: Seq<char>| #[trigger] assign("a.result"@, v) == "a.result = "@ + v by {
        assert(assign("a.result"@, v) =~= "a.result = "@ + v);
    }
}

pub proof fn law_audit_filters_constrain_their_columns(f: AuditFilter)
    ensures
        f.occurred_at_from matches Some(x) ==> occurs_in(
            "a.occurred_at >= '"@ + x@ + "'"@,
            where_sql("1=1"@, audit_conditions(f)),
        ),
        f.occurred_at_to matches Some(x) ==> occurs_in(
            "a.occurred_at <= '"@ + x@ + "'"@,
            where_sql("1=1"@, audit_conditions(f)),
        ),
        f.actor_user_id matches Some(x) ==> (uuid_parse(x@) matches Some(id) ==> occurs_in(
            id_equals("a.actor_user_id"@, id),
            where_sql("1=1"@, audit_conditions(f)),
        )),
        f.action matches Some(x) ==> occurs_in(
            "a.action ILIKE '%"@ + sanitize_like_spec(x@) + "%'"@,
            where_sql("1=1"@, audit_conditions(f)),
        ),
        f.target_type matches Some(x) ==> occurs_in(
            "a.target_type = "@ + quoted(x@),
            where_sql("1=1"@, audit_conditions(f)),
        ),
        f.system_id matches Some(x) ==> (uuid_parse(x@) matches Some(id) ==> occurs_in(
            id_equals("a.system_id"@, id),
            where_sql("1=1"@, audit_conditions(f)),
        )),
        f.tenant_id matches Some(x) ==> (uuid_parse(x@) matches Some(id) ==> occurs_in(
            id_equals("a.tenant_id"@, id),
            where_sql("1=1"@, audit_conditions(f)),
        )),
        f.result matches Some(x) ==> occurs_in(
            "a.result = "@ + quoted(x@),
            where_sql("1=1"@, audit_conditions(f)),
        ),
{
    let conds = audit_conditions(f);
    lemma_audit_literals();
    if let Some(x) = f.occurred_at_from {
        lemma_time_bounds(x@);
        lemma_where_has("1=1"@, conds, 0);
    }
    if let Some(x) = f.occurred_at_to {
        lemma_time_bounds(x@);
        lemma_where_has("1=1"@, conds, 1);
    }
    if let Some(x) = f.actor_user_id {
        if uuid_parse(x@) is Some {
            lemma_where_has("1=1"@, conds, 2);
        }
    }
    if let Some(x) = f.action {
        lemma_where_has("1=1"@, conds, 3);
    }
    if let Some(x) = f.target_type {
        lemma_where_has("1=1"@, conds, 4);
    }
    if let Some(x) = f.system_id {
        if uuid_parse(x@) is Some {
            lemma_where_has("1=1"@, conds, 5);
        }
    }
    if let Some(x) = f.tenant_id {
        if uuid_parse(x@) is Some {
            lemma_where_has("1=1"@, conds, 6);
        }
    }
    if let Some(x) = f.result {
        lemma_where_has("1=1"@, conds, 7);
    }
}

/// With only time bounds given, the audit clause is exactly those bounds: events on
/// or after the start (where one is given) and on or before the end (where one is
/// given), and nothing else.
pub proof fn law_audit_time_bounds_alone(f: AuditFilter)
    requires
        f.actor_user_id is None,
        f.action is None,
        f.target_type is None,
        f.system_id is None,
        f.tenant_id is None,
        f.result is None,
    ensures
        f.occurred_at_from is None ==> (f.occurred_at_to matches Some(t) ==> where_sql("1=1"@, audit_conditions(f))
            == "1=1 AND a.occurred_at <= '"@ + t@ + "'"@),
        f.occurred_at_to is None ==> (f.occurred_at_from matches Some(t) ==> where_sql("1=1"@, audit_conditions(f))
            == "1=1 AND a.occurred_at >= '"@ + t@ + "'"@),
        f.occurred_at_from is None && f.occurred_at_to is None ==> where_sql("1=1"@, audit_conditions(f)) == "1=1"@,
{
    let conds = audit_conditions(f);
    reveal_strlit("a.occurred_at");
    reveal_strlit(" ");
    reveal_strlit(">=");
    reveal_strlit("<=");
    reveal_strlit(" AND ");
    reveal_strlit("1=1");
    reveal_strlit("1=1 AND a.occurred_at <= '");
    reveal_strlit("1=1 AND a.occurred_at >= '");
    reveal_strlit("'");
    if f.occurred_at_from is None {
        if let Some(t) = f.occurred_at_to {
            lemma_where_single("1=1"@, conds, 1);
            assert("1=1"@ + " AND "@ + conds[1].unwrap() =~= "1=1 AND a.occurred_at <= '"@ + t@ + "'"@);
        } else {
            lemma_present_none(conds);
            assert(seq!["1=1"@] + Seq::<Seq<char>>::empty() =~= seq!["1=1"@]);
        }
    } else if f.occurred_at_to is None {
        let t = f.occurred_at_from.unwrap();
        lemma_where_single("1=1"@, conds, 0);
        assert("1=1"@ + " AND "@ + conds[0].unwrap() =~= "1=1 AND a.occurred_at >= '"@ + t@ + "'"@);
    }
}

/// The keyword condition on the user's username and display name, written out.
proof fn lemma_name_keyword(x: Seq<char>)
    ensures
        keyword_set(seq!["u.username"@, "u.display_name"@], Some(x)) == Some(
            "(u.username ILIKE '%"@ + sanitize_like_spec(x) + "%' OR u.display_name ILIKE '%"@
                + sanitize_like_spec(x) + "%')"@,
        ),
{
    let k = sanitize_like_spec(x);
    reveal_strlit("u.username");
    reveal_strlit("u.display_name");
    reveal_strlit(" ILIKE '%");
    reveal_strlit("%'");
    reveal_strlit(" OR ");
    reveal_strlit("(");
    reveal_strlit(")");
    reveal_strlit("(u.username ILIKE '%");
    reveal_strlit("%' OR u.display_name ILIKE '%");
    reveal_strlit("%')");
    let parts = ilikes(seq!["u.username"@, "u.display_name"@], x);
    assert(parts.len() == 2);
    assert(parts.drop_last() =~= seq![ilike("u.username"@, x)]);
    assert(join(parts.drop_last(), " OR "@) == ilike("u.username"@, x));
    assert(parts.last() == ilike("u.display_name"@, x));
    assert(join(parts, " OR "@) == ilike("u.username"@, x) + " OR "@ + ilike("u.display_name"@, x));
    assert("("@ + join(parts, " OR "@) + ")"@ =~= "(u.username ILIKE '%"@ + k + "%' OR u.display_name ILIKE '%"@
        + k + "%')"@);
}

/// Every filter of the sub-administrator list that is given constrains its own column:
/// the status that of the grant itself (`g.status`), the code that of the subsystem,
/// the tenant and user those of the grant, the keyword the user's name.
pub proof fn law_grant_filters_constrain_their_columns(f: GrantFilter)
    ensures
        f.status matches Some(x) ==> occurs_in("g.status = "@ + quoted(x@), where_sql("1=1"@, grant_conditions(f))),
        f.system_code matches Some(x) ==> occurs_in("s.code = "@ + quoted(x@), where_sql("1=1"@, grant_conditions(f))),
        f.tenant_id matches Some(x) ==> (uuid_parse(x@) matches Some(id) ==> occurs_in(
            id_equals("g.tenant_id"@, id),
            where_sql("1=1"@, grant_conditions(f)),
        )),
        f.user_id matches Some(x) ==> (uuid_parse(x@) matches Some(id) ==> occurs_in(
            id_equals("g.user_id"@, id),
            where_sql("1=1"@, grant_conditions(f)),
        )),
        f.keyword matches Some(x) ==> occurs_in(
            "(u.username ILIKE '%"@ + sanitize_like_spec(x@) + "%' OR u.display_name ILIKE '%"@
                + sanitize_like_spec(x@) + "%')"@,
            where_sql("1=1"@, grant_conditions(f)),
        ),
{
    let conds = grant_conditions(f);
    if let Some(x) = f.status {
        assert(occurs_in("g.status = "@ + quoted(x@), where_sql("1=1"@, conds))) by {
            reveal_strlit("g.status");
            reveal_strlit(" = ");
            reveal_strlit("g.status = ");
            lemma_where_has("1=1"@, conds, 0);
            assert(conds[0].unwrap() =~= "g.status = "@ + quoted(x@));
        }
    }
    if let Some(x) = f.system_code {
        assert(occurs_in("s.code = "@ + quoted(x@), where_sql("1=1"@, conds))) by {
            reveal_strlit("s.code");
            reveal_strlit(" = ");
            reveal_strlit("s.code = ");
            lemma_where_has("1=1"@, conds, 1);
            assert(conds[1].unwrap() =~= "s.code = "@ + quoted(x@));
        }
    }
    if let Some(x) = f.tenant_id {
        if let Some(id) = uuid_parse(x@) {
            assert(occurs_in(id_equals("g.tenant_id"@, id), where_sql("1=1"@, conds))) by {
                lemma_where_has("1=1"@, conds, 2);
                assert(conds[2].unwrap() =~= id_equals("g.tenant_id"@, id));
            }
        }
    }
    if let Some(x) = f.user_id {
        if let Some(id) = uuid_parse(x@) {
            assert(occurs_in(id_equals("g.user_id"@, id), where_sql("1=1"@, conds))) by {
                lemma_where_has("1=1"@, conds, 3);
                assert(conds[3].unwrap() =~= id_equals("g.user_id"@, id));
            }
        }
    }
    if let Some(x) = f.keyword {
        lemma_where_has("1=1"@, conds, 4);
        lemma_name_keyword(x@);
    }
}

/// With only a status given, the sub-administrator list keeps the grants whose own
/// status is that one, and constrains nothing else.
pub proof fn law_grant_status_alone(f: GrantFilter)
    requires
        f.status is Some,
        f.system_code is None,
        f.tenant_id is None,
        f.user_id is None,
        f.keyword is None,
    ensures
        where_sql("1=1"@, grant_conditions(f)) == "1=1 AND g.status = "@ + quoted(f.status.unwrap()@),
{
    let conds = grant_conditions(f);
    reveal_strlit("g.status");
    reveal_strlit(" = ");
    reveal_strlit(" AND ");
    reveal_strlit("1=1");
    reveal_strlit("1=1 AND g.status = ");
    lemma_where_single("1=1"@, conds, 0);
    assert("1=1"@ + " AND "@ + conds[0].unwrap() =~= "1=1 AND g.status = "@ + quoted(f.status.unwrap()@));
}

/// Every filter of the account list that is given constrains what it names: the
/// account's own status, its organization path and its names by containment, its
/// global roles by code and its tenant memberships, where the tenant is a UUID.
pub proof fn law_user_filters_constrain_their_columns(f: UserFilter)
    ensures
        f.status matches Some(x) ==> occurs_in(assign("u.status"@, quoted(x@)), where_sql("1=1"@, user_conditions(f))),
        f.organization_path matches Some(x) ==> occurs_in(
            ilike("u.organization_path"@, x@),
            where_sql("1=1"@, user_conditions(f)),
        ),
        f.keyword matches Some(x) ==> occurs_in(
            "("@ + join(ilikes(seq!["u.username"@, "u.display_name"@, "u.email"@, "u.phone"@], x@), " OR "@) + ")"@,
            where_sql("1=1"@, user_conditions(f)),
        ),
        f.role_code matches Some(x) ==> occurs_in(assign("r.code"@, quoted(x@)), where_sql("1=1"@, user_conditions(f))),
        f.tenant_id matches Some(x) ==> (uuid_parse(x@) matches Some(id) ==> occurs_in(
            id_equals("tm.tenant_id"@, id),
            where_sql("1=1"@, user_conditions(f)),
        )),
{
    let conds = user_conditions(f);
    let w = where_sql("1=1"@, conds);
    if let Some(x) = f.status {
        lemma_where_has("1=1"@, conds, 0);
    }
    if let Some(x) = f.organization_path {
        lemma_where_has("1=1"@, conds, 1);
    }
    if let Some(x) = f.keyword {
        lemma_where_has("1=1"@, conds, 2);
    }
    if let Some(x) = f.role_code {
        lemma_where_has("1=1"@, conds, 3);
        let c = conds[3].unwrap();
        let a = assign("r.code"@, quoted(x@));
        let pre = "EXISTS (SELECT 1 FROM portal_user_roles ur JOIN portal_roles r ON r.id = ur.role_id WHERE ur.user_id = u.id AND ur.tenant_id IS NULL AND "@;
        assert(c == pre + a + ")"@);
        lemma_occurs_inside(pre, a, ")"@, c, w);
    }
    if let Some(x) = f.tenant_id {
        if let Some(id) = uuid_parse(x@) {
            lemma_where_has("1=1"@, conds, 4);
            let c = conds[4].unwrap();
            let a = id_equals("tm.tenant_id"@, id);
            let pre = "EXISTS (SELECT 1 FROM portal_tenant_members tm WHERE tm.user_id = u.id AND "@;
            assert(c == pre + a + ")"@);
            lemma_occurs_inside(pre, a, ")"@, c, w);
        }
    }
}

/// What stands in a text that stands in another stands in that other.
proof fn lemma_occurs_inside(pre: Seq<char>, a: Seq<char>, post: Seq<char>, c: Seq<char>, w: Seq<char>)
    requires
        c == pre + a + post,
        occurs_in(c, w),
    ensures
        occurs_in(a, w),
{
    let i = choose|i: int| 0 <= i && i + c.len() <= w.len() && #[trigger] w.subrange(i, i + c.len()) == c;
    let p: int = pre.len() as int;
    let j: int = i + p;
    assert(w.subrange(j, j + a.len()) =~= c.subrange(p, p + a.len()));
    assert(c.subrange(p, p + a.len()) =~= a);
}

/// The tenant list keeps tenants of the given status and with the keyword in their
/// code or name; the integration list does the same among portal-managed subsystems.
pub proof fn law_tenant_filters_constrain_their_columns(f: ListFilter)
    ensures
        f.status matches Some(x) ==> occurs_in(assign("status"@, quoted(x@)), where_sql("1=1"@, tenant_conditions(f)))
            && occurs_in(assign("status"@, quoted(x@)), where_sql("portal_managed = true"@, tenant_conditions(f))),
        f.keyword matches Some(x) ==> occurs_in(
            "("@ + join(ilikes(seq!["code"@, "name"@], x@), " OR "@) + ")"@,
            where_sql("1=1"@, tenant_conditions(f)),
        ),
{
    let conds = tenant_conditions(f);
    if f.status is Some {
        lemma_where_has("1=1"@, conds, 0);
        lemma_where_has("portal_managed = true"@, conds, 0);
    }
    if f.keyword is Some {
        lemma_where_has("1=1"@, conds, 1);
    }
}

/// The role list keeps roles of the given type and with the keyword in their code or name.
pub proof fn law_role_filters_constrain_their_columns(f: ListFilter)
    ensures
        f.role_type matches Some(x) ==> occurs_in(
            assign("role_type"@, quoted(x@)),
            where_sql("1=1"@, role_conditions(f)),
        ),
        f.keyword matches Some(x) ==> occurs_in(
            "("@ + join(ilikes(seq!["code"@, "name"@], x@), " OR "@) + ")"@,
            where_sql("1=1"@, role_conditions(f)),
        ),
{
    let conds = role_conditions(f);
    if f.role_type is Some {
        lemma_where_has("1=1"@, conds, 0);
    }
    if f.keyword is Some {
        lemma_where_has("1=1"@, conds, 1);
    }
}

/// The subsystem list keeps subsystems of the given status, with the category text in
/// their category and the keyword in their code or name.
pub proof fn law_system_filters_constrain_their_columns(f: ListFilter)
    ensures
        f.status matches Some(x) ==> occurs_in(assign("status"@, quoted(x@)), where_sql("1=1"@, system_conditions(f))),
        f.category matches Some(x) ==> occurs_in(ilike("category"@, x@), where_sql("1=1"@, system_conditions(f))),
        f.keyword matches Some(x) ==> occurs_in(
            "("@ + join(ilikes(seq!["code"@, "name"@], x@), " OR "@) + ")"@,
            where_sql("1=1"@, system_conditions(f)),
        ),
{
    let conds = system_conditions(f);
    if f.status is Some {
        lemma_where_has("1=1"@, conds, 0);
    }
    if f.category is Some {
        lemma_where_has("1=1"@, conds, 1);
    }
    if f.keyword is Some {
        lemma_where_has("1=1"@, conds, 2);
    }
}

// ---------------------------------------------------------------------------
// Page sizes
// ---------------------------------------------------------------------------

/// How many audit events a list returns: the number asked for, at least 1 and at
/// most 200.
pub fn clamp_take(take: i64) -> (r: i64)
    ensures
        r == (if take < 1 {
            1
        } else if take > 200 {
            200
        } else {
            take
        }),
{
    if take < 1 {
        1
    } else if take > 200 {
        200
    } else {
        take
    }
}

/// The number of pages that `total` rows fill, `limit` to a page: the quotient
/// rounded up.
pub fn total_pages(total: i64, limit: i64) -> (r: i64)
    requires
        total >= 0,
        limit > 0,
    ensures
        r as int * limit >= total,
        (r as int - 1) * limit < total || r == 0,
        r >= 0,
{
    let q = total / limit;
    let m = total % limit;
    proof {
        vstd::arithmetic::div_mod::lemma_fundamental_div_mod(total as int, limit as int);
        vstd::arithmetic::div_mod::lemma_mod_pos_bound(total as int, limit as int);
        assert(q * limit == limit * q) by (nonlinear_arith);
        assert(q * limit + m == total);
        assert(q * limit <= total);
        assert(m != 0 ==> limit >= 2);
        assert(m != 0 ==> q < i64::MAX) by (nonlinear_arith)
            requires
                q * limit <= total,
                total <= i64::MAX,
                m != 0 ==> limit >= 2,
                q >= 0,
        {
        }
        assert((q + 1) * limit == q * limit + limit) by (nonlinear_arith);
        assert((q - 1) * limit == q * limit - limit) by (nonlinear_arith);
    }
    if m == 0 {
        q
    } else {
        q + 1
    }
}

} // verus!
