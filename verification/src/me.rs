//! What a user is told about their own permissions and about a refused access.

use vstd::prelude::*;
use crate::model::{AdminScope, ScopeView};
use crate::permissions::{PermissionDetails, upsert_all, upsert_scopes, lemma_upsert_all_concat};
use crate::text::{chars_of, string_of, owned, text_eq, dedup, insert_all, push_all_unique, lemma_insert_all_concat, join};

verus! {

// ---------------------------------------------------------------------------
// Refused access
// ---------------------------------------------------------------------------

/// The title, explanation and suggested recovery for a refusal reason, given either as
/// one of the error codes (`SYSTEM_DISABLED`, `SYSTEM_MAINTENANCE`, `TENANT_DISABLED`,
/// `AUTH_REQUIRED`, `INVALID_SUBSYSTEM_TICKET`, `PERMISSION_DENIED`) or as the page's
/// lowercase reason names; unknown reasons are a missing permission.
pub open spec fn reason_info_spec(reason: Seq<char>) -> (Seq<char>, Seq<char>, Seq<char>) {
    if reason == "system_disabled"@ || reason == "SYSTEM_DISABLED"@ {
        ("系统已停用"@, "目标系统当前处于停用或维护状态，暂时无法访问。"@, "返回首页或稍后再试"@)
    } else if reason == "tenant_disabled"@ || reason == "TENANT_DISABLED"@ {
        ("租户已停用"@, "所属租户当前处于停用状态，无法继续访问。"@, "联系租户管理员"@)
    } else if reason == "session_expired"@ || reason == "AUTH_REQUIRED"@ {
        ("登录已过期"@, "你的登录会话已过期或已失效，请重新登录。"@, "重新登录"@)
    } else if reason == "maintenance"@ || reason == "SYSTEM_MAINTENANCE"@ {
        ("系统维护中"@, "目标系统正在维护，维护期间暂不可用。"@, "稍后再试"@)
    } else if reason == "INVALID_SUBSYSTEM_TICKET"@ {
        ("授权码无效"@, "子系统授权码无效或已过期，请重新进入系统。"@, "重新登录或重新进入"@)
    } else {
        ("暂无访问权限"@, "你当前的身份未被授予该资源或系统的访问权限。"@, "申请权限或联系管理员"@)
    }
}

/// The texts for a refusal reason.
pub fn reason_info(reason: &str) -> (r: (&'static str, &'static str, &'static str))
    ensures
        (r.0@, r.1@, r.2@) == reason_info_spec(reason@),
{
    if text_eq(reason, "system_disabled") || text_eq(reason, "SYSTEM_DISABLED") {
        ("系统已停用", "目标系统当前处于停用或维护状态，暂时无法访问。", "返回首页或稍后再试")
    } else if text_eq(reason, "tenant_disabled") || text_eq(reason, "TENANT_DISABLED") {
        ("租户已停用", "所属租户当前处于停用状态，无法继续访问。", "联系租户管理员")
    } else if text_eq(reason, "session_expired") || text_eq(reason, "AUTH_REQUIRED") {
        ("登录已过期", "你的登录会话已过期或已失效，请重新登录。", "重新登录")
    } else if text_eq(reason, "maintenance") || text_eq(reason, "SYSTEM_MAINTENANCE") {
        ("系统维护中", "目标系统正在维护，维护期间暂不可用。", "稍后再试")
    } else if text_eq(reason, "INVALID_SUBSYSTEM_TICKET") {
        ("授权码无效", "子系统授权码无效或已过期，请重新进入系统。", "重新登录或重新进入")
    } else {
        ("暂无访问权限", "你当前的身份未被授予该资源或系统的访问权限。", "申请权限或联系管理员")
    }
}

/// The explanation of a refused access.
#[derive(Debug)]
pub struct AccessDeniedTexts {
    pub reason: String,
    pub title: String,
    pub description: String,
    pub recovery_action: String,
    pub return_to: String,
}

/// Explains a refused access: the reason defaults to a missing permission and the way
/// back to the home page.
pub fn access_denied_texts(reason: Option<String>, return_to: Option<String>) -> (r: AccessDeniedTexts)
    ensures
        r.reason@ == match reason {
            Some(s) => s@,
            None => "no_permission"@,
        },
        r.return_to@ == match return_to {
            Some(s) => s@,
            None => "/"@,
        },
        (r.title@, r.description@, r.recovery_action@) == reason_info_spec(r.reason@),
{
    let reason = match reason {
        Some(s) => s,
        None => owned("no_permission"),
    };
    let return_to = match return_to {
        Some(s) => s,
        None => owned("/"),
    };
    let info = reason_info(reason.as_str());
    AccessDeniedTexts {
        reason,
        title: owned(info.0),
        description: owned(info.1),
        recovery_action: owned(info.2),
        return_to,
    }
}

// ---------------------------------------------------------------------------
// One system across the user's tenants
// ---------------------------------------------------------------------------

/// The explanation of one system across all of a user's tenants.
#[derive(Debug)]
pub struct PermissionAggregate {
    pub permissions: Vec<String>,
    pub admin_scopes: Vec<AdminScope>,
    pub scope_summary: Vec<String>,
    pub context_preview: String,
}

/// The permissions of the tenants where the system is visible, in order, with repetitions.
pub open spec fn visible_permissions(items: Seq<(String, PermissionDetails)>) -> Seq<Seq<char>>
    decreases items.len(),
{
    if items.len() == 0 {
        Seq::empty()
    } else if items.last().1.context.visible {
        visible_permissions(items.drop_last()) + items.last().1.context.permissions.deep_view()
    } else {
        visible_permissions(items.drop_last())
    }
}

/// The scopes of the tenants where the system is visible, in order, with repetitions.
pub open spec fn visible_scopes(items: Seq<(String, PermissionDetails)>) -> Seq<ScopeView>
    decreases items.len(),
{
    if items.len() == 0 {
        Seq::empty()
    } else if items.last().1.context.visible {
        visible_scopes(items.drop_last()) + items.last().1.context.admin_scopes.deep_view()
    } else {
        visible_scopes(items.drop_last())
    }
}

/// The scope keys summarized in the tenants where the system is visible, in order.
pub open spec fn visible_scope_summaries(items: Seq<(String, PermissionDetails)>) -> Seq<Seq<char>>
    decreases items.len(),
{
    if items.len() == 0 {
        Seq::empty()
    } else if items.last().1.context.visible {
        visible_scope_summaries(items.drop_last()) + items.last().1.scope_summary.deep_view()
    } else {
        visible_scope_summaries(items.drop_last())
    }
}

/// One line of the context preview: `tenant：identity（可进入）` or `（仅可见）`.
pub open spec fn preview_part(tenant: Seq<char>, d: PermissionDetails) -> Seq<char> {
    tenant + "："@ + d.context.identity_label@ + if d.context.accessible {
        "（可进入）"@
    } else {
        "（仅可见）"@
    }
}

/// The preview lines of the tenants where the system is visible, in order.
pub open spec fn preview_parts(items: Seq<(String, PermissionDetails)>) -> Seq<Seq<char>>
    decreases items.len(),
{
    if items.len() == 0 {
        Seq::empty()
    } else if items.last().1.context.visible {
        preview_parts(items.drop_last()).push(preview_part(items.last().0@, items.last().1))
    } else {
        preview_parts(items.drop_last())
    }
}

/// Combines the details of one system in each of the user's tenants: only tenants where
/// the system is visible count; permissions and scope summaries are merged without
/// repetition, scopes by type and code, and the preview names each such tenant with the
/// identity held there and whether the system can be entered, separated by `；`.
pub fn aggregate_details(items: &Vec<(String, PermissionDetails)>) -> (r: PermissionAggregate)
    ensures
        r.permissions.deep_view() == dedup(visible_permissions(items@)),
        r.admin_scopes.deep_view() == upsert_all(Seq::empty(), visible_scopes(items@)),
        r.scope_summary.deep_view() == dedup(visible_scope_summaries(items@)),
        r.context_preview@ == join(preview_parts(items@), "；"@),
{
    let mut permissions: Vec<String> = Vec::new();
    let mut scopes: Vec<AdminScope> = Vec::new();
    let mut summary: Vec<String> = Vec::new();
    let mut preview: Vec<char> = Vec::new();
    let mut count: usize = 0;
    let sep = chars_of("；");
    let mut i: usize = 0;
    assert(permissions.deep_view() =~= Seq::<Seq<char>>::empty());
    assert(scopes.deep_view() =~= Seq::<ScopeView>::empty());
    assert(summary.deep_view() =~= Seq::<Seq<char>>::empty());
    while i < items.len()
        invariant
            i <= items.len(),
            sep@ == "；"@,
            permissions.deep_view() == dedup(visible_permissions(items@.take(i as int))),
            scopes.deep_view() == upsert_all(Seq::empty(), visible_scopes(items@.take(i as int))),
            summary.deep_view() == dedup(visible_scope_summaries(items@.take(i as int))),
            count == preview_parts(items@.take(i as int)).len(),
            count <= i,
            preview@ == join(preview_parts(items@.take(i as int)), "；"@),
        decreases items.len() - i,
    {
        let ghost pre = items@.take(i as int);
        assert(items@.take(i + 1).drop_last() =~= pre);
        assert(items@.take(i + 1).last() == items@[i as int]);
        let d = &items[i].1;
        if d.context.visible {
            proof {
                lemma_insert_all_concat(Seq::empty(), visible_permissions(pre), d.context.permissions.deep_view());
                lemma_upsert_all_concat(Seq::empty(), visible_scopes(pre), d.context.admin_scopes.deep_view());
                lemma_insert_all_concat(Seq::empty(), visible_scope_summaries(pre), d.scope_summary.deep_view());
            }
            push_all_unique(&mut permissions, &d.context.permissions);
            upsert_scopes(&mut scopes, &d.context.admin_scopes);
            push_all_unique(&mut summary, &d.scope_summary);
            let ghost before = preview@;
            if count > 0 {
                let mut s = chars_of("；");
                preview.append(&mut s);
            }
            let mut part = chars_of(items[i].0.as_str());
            let mut colon = chars_of("：");
            part.append(&mut colon);
            let mut ident = chars_of(d.context.identity_label.as_str());
            part.append(&mut ident);
            let mut label = if d.context.accessible { chars_of("（可进入）") } else { chars_of("（仅可见）") };
            part.append(&mut label);
            assert(part@ =~= preview_part(items@[i as int].0@, items@[i as int].1));
            preview.append(&mut part);
            proof {
                let parts = preview_parts(pre);
                let np = parts.push(preview_part(items@[i as int].0@, items@[i as int].1));
                assert(np.drop_last() =~= parts);
                if count == 0 {
                    assert(np.len() == 1);
                    assert(preview@ =~= join(np, "；"@));
                } else {
                    assert(preview@ =~= join(np, "；"@));
                }
            }
            count = count + 1;
        }
        i = i + 1;
    }
    assert(items@.take(items.len() as int) =~= items@);
    PermissionAggregate {
        permissions,
        admin_scopes: scopes,
        scope_summary: summary,
        context_preview: string_of(preview.as_slice()),
    }
}

} // verus!
