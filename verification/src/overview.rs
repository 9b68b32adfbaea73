//! The administration console's overview: the to-do items that it raises and how it
//! names the actor of a recent audit event.

use vstd::prelude::*;
use crate::model::Id;
use crate::ids::{id_text, id_text_spec};
use crate::text::{chars_of, string_of, owned, concat, signed_decimal, signed_decimal_chars};

verus! {

/// A to-do item of the overview.
#[derive(Debug)]
pub struct Todo {
    pub kind: String,
    pub title: String,
    pub target_type: String,
    pub target_id: String,
}

/// Abstract value of a to-do item.
pub struct TodoView {
    pub kind: Seq<char>,
    pub title: Seq<char>,
    pub target_type: Seq<char>,
    pub target_id: Seq<char>,
}

impl DeepView for Todo {
    type V = TodoView;

    open spec fn deep_view(&self) -> TodoView {
        TodoView {
            kind: self.kind@,
            title: self.title@,
            target_type: self.target_type@,
            target_id: self.target_id@,
        }
    }
}

/// The item raised for a subsystem whose integration is not finished.
pub open spec fn onboarding_todo(system: (Id, Seq<char>)) -> TodoView {
    TodoView {
        kind: "integration_incomplete"@,
        title: system.1 + " 接入配置未完成"@,
        target_type: "system"@,
        target_id: id_text_spec(system.0),
    }
}

/// The item raised for accounts that wait for activation.
pub open spec fn pending_todo(pending: int) -> TodoView {
    TodoView {
        kind: "pending_users"@,
        title: signed_decimal(pending) + " 位待激活用户已分配权限"@,
        target_type: "user"@,
        target_id: ""@,
    }
}

/// The item raised for failed ticket exchanges of the last day.
pub open spec fn exchange_failure_todo(failures: int) -> TodoView {
    TodoView {
        kind: "ticket_exchange_failure"@,
        title: "近 24 小时 "@ + signed_decimal(failures) + " 次凭证校验失败"@,
        target_type: "system"@,
        target_id: ""@,
    }
}

/// The overview's to-do items: one per onboarding subsystem, in the order given; one
/// for pending accounts where there are any; one for failed ticket exchanges where
/// there were any.
pub open spec fn overview_todos(systems: Seq<(Id, Seq<char>)>, pending: int, failures: int) -> Seq<TodoView> {
    Seq::new(systems.len(), |i: int| onboarding_todo(systems[i]))
        + (if pending > 0 { seq![pending_todo(pending)] } else { Seq::empty() })
        + (if failures > 0 { seq![exchange_failure_todo(failures)] } else { Seq::empty() })
}

/// The onboarding subsystems, by id and name, as abstract values.
pub open spec fn systems_view(systems: Seq<(Id, String)>) -> Seq<(Id, Seq<char>)> {
    Seq::new(systems.len(), |i: int| (systems[i].0, systems[i].1@))
}

/// The overview's to-do items.
pub fn overview_todos_of(systems: &Vec<(Id, String)>, pending_users: i64, failed_exchanges: i64) -> (r: Vec<Todo>)
    ensures
        r.deep_view() == overview_todos(systems_view(systems@), pending_users as int, failed_exchanges as int),
{
    let mut out: Vec<Todo> = Vec::new();
    let mut i: usize = 0;
    while i < systems.len()
        invariant
            i <= systems.len(),
            out.deep_view() == Seq::new(i as nat, |j: int| onboarding_todo(systems_view(systems@)[j])),
        decreases systems.len() - i,
    {
        let ghost before = out.deep_view();
        let title = concat(systems[i].1.as_str(), " 接入配置未完成");
        out.push(Todo {
            kind: owned("integration_incomplete"),
            title,
            target_type: owned("system"),
            target_id: id_text(systems[i].0),
        });
        assert(out.deep_view() =~= before.push(onboarding_todo(systems_view(systems@)[i as int])));
        assert(out.deep_view() =~= Seq::new((i + 1) as nat, |j: int| onboarding_todo(systems_view(systems@)[j])));
        i = i + 1;
    }
    let ghost first = out.deep_view();
    if pending_users > 0 {
        let d = signed_decimal_chars(pending_users);
        let n = string_of(d.as_slice());
        out.push(Todo {
            kind: owned("pending_users"),
            title: concat(n.as_str(), " 位待激活用户已分配权限"),
            target_type: owned("user"),
            target_id: owned(""),
        });
        assert(out.deep_view() =~= first.push(pending_todo(pending_users as int)));
    }
    let ghost second = out.deep_view();
    assert(second =~= first + (if pending_users > 0 { seq![pending_todo(pending_users as int)] } else { Seq::empty() }));
    if failed_exchanges > 0 {
        let d = signed_decimal_chars(failed_exchanges);
        let n = string_of(d.as_slice());
        let t = concat("近 24 小时 ", n.as_str());
        out.push(Todo {
            kind: owned("ticket_exchange_failure"),
            title: concat(t.as_str(), " 次凭证校验失败"),
            target_type: owned("system"),
            target_id: owned(""),
        });
        assert(out.deep_view() =~= second.push(exchange_failure_todo(failed_exchanges as int)));
    }
    assert(out.deep_view() =~= overview_todos(systems_view(systems@), pending_users as int, failed_exchanges as int));
    out
}

/// How a recent audit event names its actor: by display name, `系统` where the event
/// has none.
pub fn actor_label(actor_name: &Option<String>) -> (r: String)
    ensures
        r@ == match actor_name {
            Some(n) => n@,
            None => "系统"@,
        },
{
    match actor_name {
        Some(n) => n.clone(),
        None => owned("系统"),
    }
}

} // verus!
