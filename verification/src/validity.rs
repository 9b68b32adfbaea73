//! Which stored authorizations are in effect at a given instant. A permission
//! assignment holds from its start (if it has one) until, not including, its expiry
//! (if it has one); a sub-administrator grant holds while it is active and not yet
//! expired. Only the rows in effect reach the permission computation.

use vstd::prelude::*;
use crate::model::{Id, GrantStatus};
use crate::permissions::{
    AssignmentRow, GrantRow, AssignmentView, GrantView, PermissionInputs, SystemRow, SystemView,
    ContextView, clone_scopes, expected_context, expected_contexts, tenant_enabled_spec,
};
use crate::text::clone_strings;

verus! {

/// A stored permission assignment with its window of validity, in microseconds since
/// the Unix epoch; an absent bound leaves that side open.
#[derive(Debug)]
pub struct StoredAssignment {
    pub row: AssignmentRow,
    pub starts_at: Option<i64>,
    pub expires_at: Option<i64>,
}

/// A stored sub-administrator grant with its status and its expiry, in microseconds
/// since the Unix epoch.
#[derive(Debug)]
pub struct StoredGrant {
    pub row: GrantRow,
    pub status: GrantStatus,
    pub expires_at: Option<i64>,
}

/// Abstract value of a stored assignment.
pub struct StoredAssignmentView {
    pub row: AssignmentView,
    pub starts_at: Option<i64>,
    pub expires_at: Option<i64>,
}

/// Abstract value of a stored grant.
pub struct StoredGrantView {
    pub row: GrantView,
    pub status: GrantStatus,
    pub expires_at: Option<i64>,
}

impl DeepView for StoredAssignment {
    type V = StoredAssignmentView;

    open spec fn deep_view(&self) -> StoredAssignmentView {
        StoredAssignmentView { row: self.row.deep_view(), starts_at: self.starts_at, expires_at: self.expires_at }
    }
}

impl DeepView for StoredGrant {
    type V = StoredGrantView;

    open spec fn deep_view(&self) -> StoredGrantView {
        StoredGrantView { row: self.row.deep_view(), status: self.status, expires_at: self.expires_at }
    }
}

/// Whether an assignment with these bounds holds at `now`.
pub open spec fn assignment_in_effect(starts_at: Option<i64>, expires_at: Option<i64>, now: i64) -> bool {
    &&& match starts_at {
        Some(s) => s <= now,
        None => true,
    }
    &&& match expires_at {
        Some(e) => now < e,
        None => true,
    }
}

/// Whether a grant with this status and expiry holds at `now`: it is active and not
/// yet expired.
pub open spec fn grant_in_effect(status: GrantStatus, expires_at: Option<i64>, now: i64) -> bool {
    &&& status == GrantStatus::Active
    &&& match expires_at {
        Some(e) => now < e,
        None => true,
    }
}

pub open spec fn assignment_holds(now: i64) -> spec_fn(StoredAssignmentView) -> bool {
    |s: StoredAssignmentView| assignment_in_effect(s.starts_at, s.expires_at, now)
}

pub open spec fn grant_holds(now: i64) -> spec_fn(StoredGrantView) -> bool {
    |s: StoredGrantView| grant_in_effect(s.status, s.expires_at, now)
}

/// The assignments of `rows` that hold at `now`, in their order.
pub open spec fn current_assignments_spec(rows: Seq<StoredAssignmentView>, now: i64) -> Seq<AssignmentView> {
    rows.filter(assignment_holds(now)).map_values(|s: StoredAssignmentView| s.row)
}

/// The grants of `rows` that hold at `now`, in their order.
pub open spec fn current_grants_spec(rows: Seq<StoredGrantView>, now: i64) -> Seq<GrantView> {
    rows.filter(grant_holds(now)).map_values(|s: StoredGrantView| s.row)
}

fn clone_opt_strings(o: &Option<Vec<String>>) -> (r: Option<Vec<String>>)
    ensures
        r is Some <==> o is Some,
        r is Some ==> r.unwrap().deep_view() == o.unwrap().deep_view(),
{
    match o {
        Some(v) => Some(clone_strings(v)),
        None => None,
    }
}

fn clone_assignment(a: &AssignmentRow) -> (r: AssignmentRow)
    ensures
        r.deep_view() == a.deep_view(),
{
    let r = AssignmentRow {
        system_id: a.system_id,
        visible: a.visible,
        accessible: a.accessible,
        system_roles: clone_opt_strings(&a.system_roles),
        permissions: clone_opt_strings(&a.permissions),
        scopes: clone_scopes(&a.scopes),
    };
    r
}

fn clone_grant(g: &GrantRow) -> (r: GrantRow)
    ensures
        r.deep_view() == g.deep_view(),
{
    GrantRow { system_id: g.system_id, admin_type: g.admin_type, scopes: clone_scopes(&g.scopes) }
}

/// Whether an assignment with these bounds holds at `now`.
pub fn assignment_is_current(starts_at: Option<i64>, expires_at: Option<i64>, now: i64) -> (r: bool)
    ensures
        r == assignment_in_effect(starts_at, expires_at, now),
{
    let started = match starts_at {
        Some(s) => s <= now,
        None => true,
    };
    let not_expired = match expires_at {
        Some(e) => now < e,
        None => true,
    };
    started && not_expired
}

/// Whether a grant with this status and expiry holds at `now`.
pub fn grant_is_current(status: GrantStatus, expires_at: Option<i64>, now: i64) -> (r: bool)
    ensures
        r == grant_in_effect(status, expires_at, now),
{
    let active = match status {
        GrantStatus::Active => true,
        _ => false,
    };
    let not_expired = match expires_at {
        Some(e) => now < e,
        None => true,
    };
    active && not_expired
}

/// The assignments of `rows` that hold at `now`, in their order.
pub fn current_assignments(rows: &Vec<StoredAssignment>, now: i64) -> (r: Vec<AssignmentRow>)
    ensures
        r.deep_view() == current_assignments_spec(rows.deep_view(), now),
{
    let mut r: Vec<AssignmentRow> = Vec::new();
    let mut i: usize = 0;
    while i < rows.len()
        invariant
            i <= rows.len(),
            r.deep_view() == current_assignments_spec(rows.deep_view().take(i as int), now),
        decreases rows.len() - i,
    {
        let ghost prefix = rows.deep_view().take(i as int);
        let ghost x = rows.deep_view()[i as int];
        assert(rows.deep_view().take(i + 1) =~= prefix.push(x));
        proof {
            prefix.lemma_filter_push(x, assignment_holds(now));
        }
        if assignment_is_current(rows[i].starts_at, rows[i].expires_at, now) {
            let ghost before = r.deep_view();
            let row = clone_assignment(&rows[i].row);
            r.push(row);
            assert(r.deep_view() =~= before.push(x.row));
            assert(prefix.filter(assignment_holds(now)).push(x).map_values(|s: StoredAssignmentView| s.row)
                =~= prefix.filter(assignment_holds(now)).map_values(|s: StoredAssignmentView| s.row).push(x.row));
        }
        i = i + 1;
    }
    assert(rows.deep_view().take(rows.len() as int) =~= rows.deep_view());
    r
}

/// The grants of `rows` that hold at `now`, in their order.
pub fn current_grants(rows: &Vec<StoredGrant>, now: i64) -> (r: Vec<GrantRow>)
    ensures
        r.deep_view() == current_grants_spec(rows.deep_view(), now),
{
    let mut r: Vec<GrantRow> = Vec::new();
    let mut i: usize = 0;
    while i < rows.len()
        invariant
            i <= rows.len(),
            r.deep_view() == current_grants_spec(rows.deep_view().take(i as int), now),
        decreases rows.len() - i,
    {
        let ghost prefix = rows.deep_view().take(i as int);
        let ghost x = rows.deep_view()[i as int];
        assert(rows.deep_view().take(i + 1) =~= prefix.push(x));
        proof {
            prefix.lemma_filter_push(x, grant_holds(now));
        }
        if grant_is_current(rows[i].status, rows[i].expires_at, now) {
            let ghost before = r.deep_view();
            let row = clone_grant(&rows[i].row);
            r.push(row);
            assert(r.deep_view() =~= before.push(x.row));
            assert(prefix.filter(grant_holds(now)).push(x).map_values(|s: StoredGrantView| s.row)
                =~= prefix.filter(grant_holds(now)).map_values(|s: StoredGrantView| s.row).push(x.row));
        }
        i = i + 1;
    }
    assert(rows.deep_view().take(rows.len() as int) =~= rows.deep_view());
    r
}

/// Everything the permission computation reads for one user within one tenant, as
/// stored: the assignments and grants still carry their windows of validity.
#[derive(Debug)]
pub struct StoredInputs {
    pub membership_active: bool,
    pub systems: Vec<SystemRow>,
    pub tenant_systems: Vec<(Id, bool)>,
    pub user_assignments: Vec<StoredAssignment>,
    pub role_assignments: Vec<StoredAssignment>,
    pub tenant_assignments: Vec<StoredAssignment>,
    pub sub_admin_grants: Vec<StoredGrant>,
}

/// Abstract value of the stored inputs.
pub struct StoredInputsView {
    pub membership_active: bool,
    pub systems: Seq<SystemView>,
    pub tenant_systems: Seq<(Id, bool)>,
    pub user_assignments: Seq<StoredAssignmentView>,
    pub role_assignments: Seq<StoredAssignmentView>,
    pub tenant_assignments: Seq<StoredAssignmentView>,
    pub sub_admin_grants: Seq<StoredGrantView>,
}

impl DeepView for StoredInputs {
    type V = StoredInputsView;

    open spec fn deep_view(&self) -> StoredInputsView {
        StoredInputsView {
            membership_active: self.membership_active,
            systems: self.systems.deep_view(),
            tenant_systems: self.tenant_systems@,
            user_assignments: self.user_assignments.deep_view(),
            role_assignments: self.role_assignments.deep_view(),
            tenant_assignments: self.tenant_assignments.deep_view(),
            sub_admin_grants: self.sub_admin_grants.deep_view(),
        }
    }
}

/// The effective contexts, in catalog order, computed from the given rows; none when
/// the user is not an active member of an active tenant.
pub open spec fn contexts_of(
    membership_active: bool,
    systems: Seq<SystemView>,
    tenant_systems: Seq<(Id, bool)>,
    user_rows: Seq<AssignmentView>,
    role_rows: Seq<AssignmentView>,
    tenant_rows: Seq<AssignmentView>,
    grants: Seq<GrantView>,
) -> Seq<ContextView> {
    if !membership_active {
        Seq::empty()
    } else {
        Seq::new(
            systems.len(),
            |i: int|
                expected_context(
                    systems[i],
                    tenant_enabled_spec(tenant_systems, systems[i].id),
                    user_rows,
                    role_rows,
                    tenant_rows,
                    grants,
                ),
        )
    }
}

/// The effective contexts at `now` for the stored inputs `s`: those of the rows in effect.
pub open spec fn contexts_at(s: StoredInputsView, now: i64) -> Seq<ContextView> {
    contexts_of(
        s.membership_active,
        s.systems,
        s.tenant_systems,
        current_assignments_spec(s.user_assignments, now),
        current_assignments_spec(s.role_assignments, now),
        current_assignments_spec(s.tenant_assignments, now),
        current_grants_spec(s.sub_admin_grants, now),
    )
}

/// The inputs of the permission computation at `now`: the stored ones with every
/// assignment and grant that does not hold at `now` left out.
pub fn inputs_at(s: StoredInputs, now: i64) -> (r: PermissionInputs)
    ensures
        r.membership_active == s.membership_active,
        r.systems == s.systems,
        r.tenant_systems == s.tenant_systems,
        r.user_assignments.deep_view() == current_assignments_spec(s.user_assignments.deep_view(), now),
        r.role_assignments.deep_view() == current_assignments_spec(s.role_assignments.deep_view(), now),
        r.tenant_assignments.deep_view() == current_assignments_spec(s.tenant_assignments.deep_view(), now),
        r.sub_admin_grants.deep_view() == current_grants_spec(s.sub_admin_grants.deep_view(), now),
        expected_contexts(r) == contexts_at(s.deep_view(), now),
{
    let user_assignments = current_assignments(&s.user_assignments, now);
    let role_assignments = current_assignments(&s.role_assignments, now);
    let tenant_assignments = current_assignments(&s.tenant_assignments, now);
    let sub_admin_grants = current_grants(&s.sub_admin_grants, now);
    let r = PermissionInputs {
        membership_active: s.membership_active,
        systems: s.systems,
        tenant_systems: s.tenant_systems,
        user_assignments,
        role_assignments,
        tenant_assignments,
        sub_admin_grants,
    };
    assert(expected_contexts(r) =~= contexts_at(s.deep_view(), now));
    r
}

/// Leaving out a row that does not hold changes nothing of what holds.
proof fn lemma_filter_skips<A>(a: Seq<A>, x: A, b: Seq<A>, p: spec_fn(A) -> bool)
    requires
        !p(x),
    ensures
        (a + seq![x] + b).filter(p) == (a + b).filter(p),
{
    Seq::filter_distributes_over_add(a + seq![x], b, p);
    Seq::filter_distributes_over_add(a, seq![x], p);
    Seq::filter_distributes_over_add(a, b, p);
    Seq::<A>::empty().lemma_filter_push(x, p);
    assert(Seq::<A>::empty().push(x) =~= seq![x]);
    reveal(Seq::filter);
    assert(Seq::<A>::empty().filter(p) =~= Seq::<A>::empty());
    assert(a.filter(p) + Seq::<A>::empty() =~= a.filter(p));
}

/// An assignment that does not hold at `now` (not yet started, or expired) never
/// counts: the assignments in effect are the same with it as without it, wherever it
/// stands among the others.
pub proof fn law_lapsed_assignment_never_counts(
    a: Seq<StoredAssignmentView>,
    x: StoredAssignmentView,
    b: Seq<StoredAssignmentView>,
    now: i64,
)
    requires
        !assignment_in_effect(x.starts_at, x.expires_at, now),
    ensures
        current_assignments_spec(a + seq![x] + b, now) == current_assignments_spec(a + b, now),
{
    lemma_filter_skips(a, x, b, assignment_holds(now));
}

/// A grant that does not hold at `now` (not active, or expired) never counts: the
/// grants in effect are the same with it as without it, wherever it stands.
pub proof fn law_lapsed_grant_never_counts(
    a: Seq<StoredGrantView>,
    x: StoredGrantView,
    b: Seq<StoredGrantView>,
    now: i64,
)
    requires
        !grant_in_effect(x.status, x.expires_at, now),
    ensures
        current_grants_spec(a + seq![x] + b, now) == current_grants_spec(a + b, now),
{
    lemma_filter_skips(a, x, b, grant_holds(now));
}

/// `t` is `s` with one more stored row, which does not hold at `now`, in one of its
/// assignment lists or among its grants.
pub open spec fn one_lapsed_row_more(s: StoredInputsView, t: StoredInputsView, now: i64) -> bool {
    &&& t.membership_active == s.membership_active
    &&& t.systems == s.systems
    &&& t.tenant_systems == s.tenant_systems
    &&& {
        ||| exists|k: int, x: StoredAssignmentView|
            0 <= k <= s.user_assignments.len() && !assignment_in_effect(x.starts_at, x.expires_at, now)
                && t.user_assignments == #[trigger] s.user_assignments.insert(k, x)
                && t.role_assignments == s.role_assignments && t.tenant_assignments == s.tenant_assignments
                && t.sub_admin_grants == s.sub_admin_grants
        ||| exists|k: int, x: StoredAssignmentView|
            0 <= k <= s.role_assignments.len() && !assignment_in_effect(x.starts_at, x.expires_at, now)
                && t.role_assignments == #[trigger] s.role_assignments.insert(k, x)
                && t.user_assignments == s.user_assignments && t.tenant_assignments == s.tenant_assignments
                && t.sub_admin_grants == s.sub_admin_grants
        ||| exists|k: int, x: StoredAssignmentView|
            0 <= k <= s.tenant_assignments.len() && !assignment_in_effect(x.starts_at, x.expires_at, now)
                && t.tenant_assignments == #[trigger] s.tenant_assignments.insert(k, x)
                && t.user_assignments == s.user_assignments && t.role_assignments == s.role_assignments
                && t.sub_admin_grants == s.sub_admin_grants
        ||| exists|k: int, x: StoredGrantView|
            0 <= k <= s.sub_admin_grants.len() && !grant_in_effect(x.status, x.expires_at, now)
                && t.sub_admin_grants == #[trigger] s.sub_admin_grants.insert(k, x)
                && t.user_assignments == s.user_assignments && t.role_assignments == s.role_assignments
                && t.tenant_assignments == s.tenant_assignments
    }
}

proof fn lemma_insert_lapsed_assignment(rows: Seq<StoredAssignmentView>, k: int, x: StoredAssignmentView, now: i64)
    requires
        0 <= k <= rows.len(),
        !assignment_in_effect(x.starts_at, x.expires_at, now),
    ensures
        current_assignments_spec(rows.insert(k, x), now) == current_assignments_spec(rows, now),
{
    assert(rows.insert(k, x) =~= rows.take(k) + seq![x] + rows.skip(k));
    assert(rows =~= rows.take(k) + rows.skip(k));
    law_lapsed_assignment_never_counts(rows.take(k), x, rows.skip(k), now);
}

proof fn lemma_insert_lapsed_grant(rows: Seq<StoredGrantView>, k: int, x: StoredGrantView, now: i64)
    requires
        0 <= k <= rows.len(),
        !grant_in_effect(x.status, x.expires_at, now),
    ensures
        current_grants_spec(rows.insert(k, x), now) == current_grants_spec(rows, now),
{
    assert(rows.insert(k, x) =~= rows.take(k) + seq![x] + rows.skip(k));
    assert(rows =~= rows.take(k) + rows.skip(k));
    law_lapsed_grant_never_counts(rows.take(k), x, rows.skip(k), now);
}

/// Expired or revoked authorizations never enter an effective context: two stored
/// states that differ by one assignment or grant which does not hold at `now` give the
/// same effective contexts at `now`.
pub proof fn law_lapsed_rows_never_count(s: StoredInputsView, t: StoredInputsView, now: i64)
    requires
        one_lapsed_row_more(s, t, now),
    ensures
        contexts_at(t, now) == contexts_at(s, now),
{
    if exists|k: int, x: StoredAssignmentView|
        0 <= k <= s.user_assignments.len() && !assignment_in_effect(x.starts_at, x.expires_at, now)
            && t.user_assignments == #[trigger] s.user_assignments.insert(k, x)
            && t.role_assignments == s.role_assignments && t.tenant_assignments == s.tenant_assignments
            && t.sub_admin_grants == s.sub_admin_grants {
        let (k, x) = choose|k: int, x: StoredAssignmentView|
            0 <= k <= s.user_assignments.len() && !assignment_in_effect(x.starts_at, x.expires_at, now)
                && t.user_assignments == #[trigger] s.user_assignments.insert(k, x)
                && t.role_assignments == s.role_assignments && t.tenant_assignments == s.tenant_assignments
                && t.sub_admin_grants == s.sub_admin_grants;
        lemma_insert_lapsed_assignment(s.user_assignments, k, x, now);
    } else if exists|k: int, x: StoredAssignmentView|
        0 <= k <= s.role_assignments.len() && !assignment_in_effect(x.starts_at, x.expires_at, now)
            && t.role_assignments == #[trigger] s.role_assignments.insert(k, x)
            && t.user_assignments == s.user_assignments && t.tenant_assignments == s.tenant_assignments
            && t.sub_admin_grants == s.sub_admin_grants {
        let (k, x) = choose|k: int, x: StoredAssignmentView|
            0 <= k <= s.role_assignments.len() && !assignment_in_effect(x.starts_at, x.expires_at, now)
                && t.role_assignments == #[trigger] s.role_assignments.insert(k, x)
                && t.user_assignments == s.user_assignments && t.tenant_assignments == s.tenant_assignments
                && t.sub_admin_grants == s.sub_admin_grants;
        lemma_insert_lapsed_assignment(s.role_assignments, k, x, now);
    } else if exists|k: int, x: StoredAssignmentView|
        0 <= k <= s.tenant_assignments.len() && !assignment_in_effect(x.starts_at, x.expires_at, now)
            && t.tenant_assignments == #[trigger] s.tenant_assignments.insert(k, x)
            && t.user_assignments == s.user_assignments && t.role_assignments == s.role_assignments
            && t.sub_admin_grants == s.sub_admin_grants {
        let (k, x) = choose|k: int, x: StoredAssignmentView|
            0 <= k <= s.tenant_assignments.len() && !assignment_in_effect(x.starts_at, x.expires_at, now)
                && t.tenant_assignments == #[trigger] s.tenant_assignments.insert(k, x)
                && t.user_assignments == s.user_assignments && t.role_assignments == s.role_assignments
                && t.sub_admin_grants == s.sub_admin_grants;
        lemma_insert_lapsed_assignment(s.tenant_assignments, k, x, now);
    } else {
        let (k, x) = choose|k: int, x: StoredGrantView|
            0 <= k <= s.sub_admin_grants.len() && !grant_in_effect(x.status, x.expires_at, now)
                && t.sub_admin_grants == #[trigger] s.sub_admin_grants.insert(k, x)
                && t.user_assignments == s.user_assignments && t.role_assignments == s.role_assignments
                && t.tenant_assignments == s.tenant_assignments;
        lemma_insert_lapsed_grant(s.sub_admin_grants, k, x, now);
    }
}

} // verus!
