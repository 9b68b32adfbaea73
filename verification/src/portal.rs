//! The portal home page and entering a subsystem: which tenant is current, how
//! systems are grouped, and what entering a system requires.

use vstd::prelude::*;
use crate::model::{Id, SystemStatus};
use crate::error::AppError;
use crate::permissions::{SystemAccess, opt_view};
use crate::ids::{id_text, id_text_spec};
use crate::text::{chars_of, string_of, owned, text_eq, clone_strings, clone_opt};
use crate::auth::random_index;

verus! {

/// A tenant as the home page names it.
#[derive(Debug)]
pub struct TenantSummary {
    pub id: Id,
    pub code: String,
    pub name: String,
}

impl TenantSummary {
    /// A copy of this summary.
    pub fn duplicate(&self) -> (r: TenantSummary)
        ensures
            r.id == self.id,
            r.code@ == self.code@,
            r.name@ == self.name@,
    {
        TenantSummary { id: self.id, code: self.code.clone(), name: self.name.clone() }
    }
}

/// The position of the first tenant with id `id`, or -1.
pub open spec fn tenant_index(ts: Seq<TenantSummary>, id: Id) -> int
    decreases ts.len(),
{
    if ts.len() == 0 {
        -1
    } else {
        let i = tenant_index(ts.drop_last(), id);
        if i >= 0 {
            i
        } else if ts.last().id == id {
            ts.len() - 1
        } else {
            -1
        }
    }
}

proof fn lemma_tenant_index(ts: Seq<TenantSummary>, id: Id)
    ensures
        -1 <= tenant_index(ts, id) < ts.len(),
        tenant_index(ts, id) >= 0 ==> ts[tenant_index(ts, id)].id == id,
        tenant_index(ts, id) >= 0 ==> forall|j: int| 0 <= j < tenant_index(ts, id) ==> ts[j].id != id,
        tenant_index(ts, id) == -1 ==> forall|j: int| 0 <= j < ts.len() ==> ts[j].id != id,
    decreases ts.len(),
{
    if ts.len() > 0 {
        lemma_tenant_index(ts.drop_last(), id);
        assert forall|j: int| 0 <= j < ts.len() - 1 implies ts[j] == ts.drop_last()[j] by {}
    }
}

/// The position of the current tenant among the available ones: the one asked for,
/// else the user's default, where that is available; otherwise the first; none when no
/// tenant is available.
pub open spec fn current_tenant_index(requested: Option<Id>, default: Option<Id>, ts: Seq<TenantSummary>) -> int {
    let wanted = match requested {
        Some(t) => Some(t),
        None => default,
    };
    let found = match wanted {
        Some(w) => tenant_index(ts, w),
        None => -1,
    };
    if found >= 0 {
        found
    } else if ts.len() > 0 {
        0
    } else {
        -1
    }
}

/// The current tenant among the available ones.
pub fn select_current_tenant(
    requested: Option<Id>,
    default: Option<Id>,
    available: &Vec<TenantSummary>,
) -> (r: Option<usize>)
    ensures
        match r {
            Some(i) => current_tenant_index(requested, default, available@) == i,
            None => current_tenant_index(requested, default, available@) == -1,
        },
{
    let wanted = match requested {
        Some(t) => Some(t),
        None => default,
    };
    match wanted {
        Some(w) => {
            proof {
                lemma_tenant_index(available@, w);
            }
            let mut i: usize = 0;
            while i < available.len()
                invariant
                    i <= available.len(),
                    wanted == Some(w),
                    wanted == (match requested {
                        Some(t) => Some(t),
                        None => default,
                    }),
                    forall|j: int| 0 <= j < i ==> available@[j].id != w,
                decreases available.len() - i,
            {
                if available[i].id == w {
                    proof {
                        lemma_tenant_index(available@, w);
                        let t = tenant_index(available@, w);
                        if t >= 0 && t < i {
                            assert(available@[t].id != w);
                        }
                        if t > i as int || t == -1 {
                            assert(available@[i as int].id == w);
                        }
                    }
                    return Some(i);
                }
                i = i + 1;
            }
            proof {
                lemma_tenant_index(available@, w);
                let t = tenant_index(available@, w);
                if t >= 0 {
                    assert(available@[t].id != w);
                }
            }
        },
        None => {},
    }
    if available.len() > 0 {
        Some(0)
    } else {
        None
    }
}

/// The three groups of the home page.
#[derive(Clone, Copy, Debug, PartialEq, Eq, Structural)]
pub enum HomeGroup {
    /// The user's pinned systems that are still visible.
    Frequent,
    /// Active and onboarding systems.
    All,
    /// Systems under maintenance.
    Maintenance,
}

impl HomeGroup {
    /// The key and title under which the group is shown.
    pub fn key_and_title(&self) -> (r: (&'static str, &'static str))
        ensures
            (r.0@, r.1@) == match *self {
                HomeGroup::Frequent => ("frequent"@, "常用系统"@),
                HomeGroup::All => ("all"@, "全部系统"@),
                HomeGroup::Maintenance => ("maintenance"@, "维护中系统"@),
            },
    {
        match self {
            HomeGroup::Frequent => ("frequent", "常用系统"),
            HomeGroup::All => ("all", "全部系统"),
            HomeGroup::Maintenance => ("maintenance", "维护中系统"),
        }
    }
}

/// A system card on the home page.
#[derive(Debug)]
pub struct SystemSummary {
    pub system_code: String,
    pub name: String,
    pub description: Option<String>,
    pub icon_url: Option<String>,
    pub status: SystemStatus,
    pub visible: bool,
    pub accessible: bool,
    pub identity_label: String,
    pub tenant_label: String,
    pub permission_summary: Vec<String>,
    pub enterable: bool,
}

/// Whether a system belongs to a group, given the user's pinned system codes: the
/// frequent group holds the pinned systems that are still visible, whatever their status.
pub open spec fn in_group(group: HomeGroup, a: SystemAccess, pinned: Seq<Seq<char>>) -> bool {
    match group {
        HomeGroup::Frequent => pinned.contains(a.system_code@) && a.visible,
        HomeGroup::All => a.status == SystemStatus::Active || a.status == SystemStatus::Onboarding,
        HomeGroup::Maintenance => a.status == SystemStatus::Maintenance,
    }
}

/// The positions of the systems of `cs` that belong to a group, in order.
pub open spec fn group_positions(group: HomeGroup, cs: Seq<SystemAccess>, pinned: Seq<Seq<char>>) -> Seq<int>
    decreases cs.len(),
{
    if cs.len() == 0 {
        Seq::empty()
    } else if in_group(group, cs.last(), pinned) {
        group_positions(group, cs.drop_last(), pinned).push(cs.len() - 1)
    } else {
        group_positions(group, cs.drop_last(), pinned)
    }
}

/// The card for a system, labelled with the current tenant: at most the first three
/// permissions are shown, and it can be entered exactly when the system can.
pub open spec fn summary_matches(s: SystemSummary, a: SystemAccess, tenant_name: Seq<char>) -> bool {
    &&& s.system_code@ == a.system_code@
    &&& s.name@ == a.name@
    &&& opt_view(s.description) == opt_view(a.description)
    &&& opt_view(s.icon_url) == opt_view(a.icon_url)
    &&& s.status == a.status
    &&& s.visible == a.visible
    &&& s.accessible == a.accessible
    &&& s.identity_label@ == a.identity_label@
    &&& s.tenant_label@ == tenant_name
    &&& s.permission_summary.deep_view() == a.permissions.deep_view().take(
        if a.permissions.len() < 3 { a.permissions.len() as int } else { 3 },
    )
    &&& s.enterable == a.accessible
}

fn first_strings(v: &Vec<String>, n: usize) -> (r: Vec<String>)
    ensures
        r.deep_view() == v.deep_view().take(if v.len() < n { v.len() as int } else { n as int }),
{
    let m = if v.len() < n { v.len() } else { n };
    let mut r: Vec<String> = Vec::new();
    let mut i: usize = 0;
    while i < m
        invariant
            i <= m <= v.len(),
            r.deep_view() == v.deep_view().take(i as int),
        decreases m - i,
    {
        let ghost prev = r.deep_view();
        let x = v[i].clone();
        assert(x@ == v.deep_view()[i as int]);
        r.push(x);
        assert(r.deep_view() =~= prev.push(x@));
        assert(r.deep_view() =~= v.deep_view().take(i + 1));
        i = i + 1;
    }
    r
}

fn summarize(a: &SystemAccess, tenant_name: &str) -> (r: SystemSummary)
    ensures
        summary_matches(r, *a, tenant_name@),
{
    SystemSummary {
        system_code: a.system_code.clone(),
        name: a.name.clone(),
        description: clone_opt(&a.description),
        icon_url: clone_opt(&a.icon_url),
        status: a.status,
        visible: a.visible,
        accessible: a.accessible,
        identity_label: a.identity_label.clone(),
        tenant_label: owned(tenant_name),
        permission_summary: first_strings(&a.permissions, 3),
        enterable: a.accessible,
    }
}

fn strings_contain(v: &Vec<String>, s: &str) -> (r: bool)
    ensures
        r == v.deep_view().contains(s@),
{
    crate::permissions::strings_contain(v, s)
}

fn belongs(group: HomeGroup, a: &SystemAccess, pinned: &Vec<String>) -> (r: bool)
    ensures
        r == in_group(group, *a, pinned.deep_view()),
{
    match group {
        HomeGroup::Frequent => strings_contain(pinned, a.system_code.as_str()) && a.visible,
        HomeGroup::All => a.status == SystemStatus::Active || a.status == SystemStatus::Onboarding,
        HomeGroup::Maintenance => a.status == SystemStatus::Maintenance,
    }
}

/// The cards of one home page group, in the order of `contexts`.
pub fn group_systems(
    group: HomeGroup,
    contexts: &Vec<SystemAccess>,
    pinned: &Vec<String>,
    tenant_name: &str,
) -> (r: Vec<SystemSummary>)
    ensures
        r.len() == group_positions(group, contexts@, pinned.deep_view()).len(),
        forall|k: int|
            0 <= k < r.len() ==> summary_matches(
                #[trigger] r[k],
                contexts@[group_positions(group, contexts@, pinned.deep_view())[k]],
                tenant_name@,
            ),
{
    let mut r: Vec<SystemSummary> = Vec::new();
    let mut i: usize = 0;
    while i < contexts.len()
        invariant
            i <= contexts.len(),
            r.len() == group_positions(group, contexts@.take(i as int), pinned.deep_view()).len(),
            forall|j: int| 0 <= j < group_positions(group, contexts@.take(i as int), pinned.deep_view()).len()
                ==> 0 <= #[trigger] group_positions(group, contexts@.take(i as int), pinned.deep_view())[j] < i,
            forall|k: int|
                0 <= k < r.len() ==> summary_matches(
                    #[trigger] r[k],
                    contexts@[group_positions(group, contexts@.take(i as int), pinned.deep_view())[k]],
                    tenant_name@,
                ),
        decreases contexts.len() - i,
    {
        let ghost pre = contexts@.take(i as int);
        assert(contexts@.take(i + 1).drop_last() =~= pre);
        assert(contexts@.take(i + 1).last() == contexts@[i as int]);
        if belongs(group, &contexts[i], pinned) {
            let s = summarize(&contexts[i], tenant_name);
            r.push(s);
        }
        i = i + 1;
    }
    assert(contexts@.take(contexts.len() as int) =~= contexts@);
    r
}

// ---------------------------------------------------------------------------
// Entering a subsystem
// ---------------------------------------------------------------------------

/// The tenant in which a subsystem is entered: the one asked for, else the user's
/// default, else the first active membership; it must be one of the user's active
/// memberships, and failing that the tenant is refused.
pub open spec fn enter_tenant_spec(requested: Option<Id>, default: Option<Id>, memberships: Seq<Id>) -> Result<Id, AppError> {
    match enter_choice(requested, default, memberships) {
        None => Err(AppError::TenantDisabled),
        Some(t) => if memberships.contains(t) {
            Ok(t)
        } else {
            Err(AppError::TenantDisabled)
        },
    }
}

/// The tenant asked for, else the default, else the first membership.
pub open spec fn enter_choice(requested: Option<Id>, default: Option<Id>, memberships: Seq<Id>) -> Option<Id> {
    match requested {
        Some(t) => Some(t),
        None => match default {
            Some(t) => Some(t),
            None => if memberships.len() > 0 {
                Some(memberships[0])
            } else {
                None
            },
        },
    }
}

/// Chooses the tenant in which a subsystem is entered.
pub fn resolve_enter_tenant(requested: Option<Id>, default: Option<Id>, memberships: &Vec<Id>) -> (r: Result<Id, AppError>)
    ensures
        match enter_tenant_spec(requested, default, memberships@) {
            Ok(t) => r matches Ok(x) && x == t,
            Err(_) => r matches Err(AppError::TenantDisabled),
        },
{
    let chosen = match requested {
        Some(t) => t,
        None => match default {
            Some(t) => t,
            None => {
                if memberships.len() > 0 {
                    memberships[0]
                } else {
                    return Err(AppError::TenantDisabled);
                }
            },
        },
    };
    let mut i: usize = 0;
    while i < memberships.len()
        invariant
            i <= memberships.len(),
            enter_choice(requested, default, memberships@) == Some(chosen),
            forall|j: int| 0 <= j < i ==> memberships@[j] != chosen,
        decreases memberships.len() - i,
    {
        if memberships[i] == chosen {
            assert(memberships@[i as int] == chosen);
            assert(memberships@.contains(chosen));
            return Ok(chosen);
        }
        i = i + 1;
    }
    Err(AppError::TenantDisabled)
}

/// A system may be entered only where the user's access allows it.
pub fn require_enterable(access: &Option<SystemAccess>) -> (r: Result<(), AppError>)
    ensures
        match access {
            Some(a) => if a.accessible { r is Ok } else { r matches Err(AppError::PermissionDenied) },
            None => r matches Err(AppError::PermissionDenied),
        },
{
    match access {
        Some(a) => if a.accessible {
            Ok(())
        } else {
            Err(AppError::PermissionDenied)
        },
        None => Err(AppError::PermissionDenied),
    }
}

/// Where the browser is sent after entering: the callback URL, else the entry URL.
pub fn callback_target(callback_url: Option<String>, entry_url: String) -> (r: String)
    ensures
        r == match callback_url {
            Some(c) => c,
            None => entry_url,
        },
{
    match callback_url {
        Some(c) => c,
        None => entry_url,
    }
}

/// The one-time code handed to the subsystem: `ticket_id:secret`.
pub fn ticket_code(ticket_id: Id, secret: &str) -> (r: String)
    ensures
        r@ == id_text_spec(ticket_id) + seq![':'] + secret@,
{
    let mut out = chars_of(id_text(ticket_id).as_str());
    out.push(':');
    let mut sc = chars_of(secret);
    out.append(&mut sc);
    string_of(out.as_slice())
}

/// The characters of ticket secrets.
pub open spec fn token_alphabet() -> Seq<char> {
    "ABCDEFGHIJKLMNOPQRSTUVWXYZabcdefghijklmnopqrstuvwxyz0123456789"@
}

/// A random secret of `length` letters and digits.
pub fn generate_random_token(length: usize) -> (r: String)
    ensures
        r@.len() == length,
        forall|i: int| 0 <= i < length ==> token_alphabet().contains(#[trigger] r@[i]),
{
    let alphabet = chars_of("ABCDEFGHIJKLMNOPQRSTUVWXYZabcdefghijklmnopqrstuvwxyz0123456789");
    proof {
        reveal_strlit("ABCDEFGHIJKLMNOPQRSTUVWXYZabcdefghijklmnopqrstuvwxyz0123456789");
    }
    let mut out: Vec<char> = Vec::new();
    let mut i: usize = 0;
    while i < length
        invariant
            i <= length,
            alphabet@ == token_alphabet(),
            alphabet@.len() == 62,
            out@.len() == i,
            forall|j: int| 0 <= j < i ==> token_alphabet().contains(#[trigger] out@[j]),
        decreases length - i,
    {
        let k = random_index(alphabet.len());
        let c = alphabet[k];
        assert(token_alphabet()[k as int] == c);
        out.push(c);
        assert(out@[i as int] == c);
        i = i + 1;
    }
    string_of(out.as_slice())
}

} // verus!
