//! Replacing the set of links between one record and others (an account's roles and
//! tenants, a tenant's members and subsystems, a role's members): which stored links
//! go, which targets are linked anew.

use vstd::prelude::*;
use crate::model::Id;
use crate::ids::{parse_id, uuid_parse, id_text, id_text_spec};
use crate::permissions::strings_contain;

verus! {

/// The texts of the targets of stored links `(link id, target id)`.
pub open spec fn target_texts(existing: Seq<(Id, Id)>) -> Seq<Seq<char>> {
    Seq::new(existing.len(), |i: int| id_text_spec(existing[i].1))
}

/// The stored links whose target is not among the requested texts, by link id, in order.
pub open spec fn removed_links(existing: Seq<(Id, Id)>, requested: Seq<Seq<char>>) -> Seq<Id>
    decreases existing.len(),
{
    if existing.len() == 0 {
        Seq::empty()
    } else if requested.contains(id_text_spec(existing.last().1)) {
        removed_links(existing.drop_last(), requested)
    } else {
        removed_links(existing.drop_last(), requested).push(existing.last().0)
    }
}

/// The requested targets that no stored link has under the same text and that parse,
/// in order; a repeated text is added each time.
pub open spec fn added_targets(texts: Seq<Seq<char>>, requested: Seq<Seq<char>>) -> Seq<Id>
    decreases requested.len(),
{
    if requested.len() == 0 {
        Seq::empty()
    } else if texts.contains(requested.last()) {
        added_targets(texts, requested.drop_last())
    } else {
        match uuid_parse(requested.last()) {
            Some(id) => added_targets(texts, requested.drop_last()).push(id),
            None => added_targets(texts, requested.drop_last()),
        }
    }
}

/// The stored links that stay, as `(link id, target id)`, in order.
pub open spec fn kept_links(existing: Seq<(Id, Id)>, requested: Seq<Seq<char>>) -> Seq<(Id, Id)>
    decreases existing.len(),
{
    if existing.len() == 0 {
        Seq::empty()
    } else if requested.contains(id_text_spec(existing.last().1)) {
        kept_links(existing.drop_last(), requested).push(existing.last())
    } else {
        kept_links(existing.drop_last(), requested)
    }
}

/// What replacing a record's links does.
#[derive(Debug)]
pub struct LinkPlan {
    /// The stored links to delete.
    pub remove: Vec<Id>,
    /// The targets to link anew.
    pub add: Vec<Id>,
}

/// Compares the stored links `(link id, target id)` with the requested target ids, as
/// texts: a stored link goes where the text of its target is not requested; a requested
/// text that no stored target has is linked where it parses.
pub fn plan_links(existing: &Vec<(Id, Id)>, requested: &Vec<String>) -> (r: LinkPlan)
    ensures
        r.remove@ == removed_links(existing@, requested.deep_view()),
        r.add@ == added_targets(target_texts(existing@), requested.deep_view()),
{
    let mut texts: Vec<String> = Vec::new();
    let mut remove: Vec<Id> = Vec::new();
    let mut i: usize = 0;
    while i < existing.len()
        invariant
            i <= existing.len(),
            texts.deep_view() == target_texts(existing@.take(i as int)),
            remove@ == removed_links(existing@.take(i as int), requested.deep_view()),
        decreases existing.len() - i,
    {
        let ghost pre = existing@.take(i as int);
        assert(existing@.take(i + 1).drop_last() =~= pre);
        assert(existing@.take(i + 1).last() == existing@[i as int]);
        let t = id_text(existing[i].1);
        if !strings_contain(requested, t.as_str()) {
            remove.push(existing[i].0);
        }
        let ghost before = texts.deep_view();
        texts.push(t);
        assert(texts.deep_view() =~= before.push(id_text_spec(existing@[i as int].1)));
        assert(texts.deep_view() =~= target_texts(existing@.take(i + 1)));
        i = i + 1;
    }
    assert(existing@.take(existing.len() as int) =~= existing@);
    let mut add: Vec<Id> = Vec::new();
    let mut j: usize = 0;
    while j < requested.len()
        invariant
            j <= requested.len(),
            texts.deep_view() == target_texts(existing@),
            add@ == added_targets(target_texts(existing@), requested.deep_view().take(j as int)),
        decreases requested.len() - j,
    {
        assert(requested.deep_view().take(j + 1).drop_last() =~= requested.deep_view().take(j as int));
        assert(requested.deep_view().take(j + 1).last() == requested.deep_view()[j as int]);
        if !strings_contain(&texts, requested[j].as_str()) {
            match parse_id(requested[j].as_str()) {
                Some(id) => add.push(id),
                None => {},
            }
        }
        j = j + 1;
    }
    assert(requested.deep_view().take(requested.len() as int) =~= requested.deep_view());
    LinkPlan { remove, add }
}

/// The account's new default tenant after its tenants are replaced: the first requested
/// tenant, where it parses and differs from the current default.
pub fn new_default_tenant(current: Option<Id>, requested: &Vec<String>) -> (r: Option<Id>)
    ensures
        r == (if requested.len() > 0 {
            match uuid_parse(requested[0]@) {
                Some(t) => if current == Some(t) { None } else { Some(t) },
                None => None,
            }
        } else {
            None
        }),
{
    if requested.len() > 0 {
        match parse_id(requested[0].as_str()) {
            Some(t) => if current == Some(t) { None } else { Some(t) },
            None => None,
        }
    } else {
        None
    }
}

// ---------------------------------------------------------------------------
// Laws
// ---------------------------------------------------------------------------

/// Requested ids are written canonically: each that parses is the text of its id.
pub open spec fn canonical(requested: Seq<Seq<char>>) -> bool {
    forall|k: int| 0 <= k < requested.len() ==> match #[trigger] uuid_parse(requested[k]) {
        Some(id) => id_text_spec(id) == requested[k],
        None => true,
    }
}

/// The targets linked after the replacement: those of the links that stay, then the
/// new ones.
pub open spec fn targets_after(existing: Seq<(Id, Id)>, requested: Seq<Seq<char>>) -> Seq<Id> {
    Seq::new(kept_links(existing, requested).len(), |i: int| kept_links(existing, requested)[i].1)
        + added_targets(target_texts(existing), requested)
}

proof fn lemma_kept_links(existing: Seq<(Id, Id)>, requested: Seq<Seq<char>>)
    ensures
        forall|k: int| #![trigger kept_links(existing, requested)[k]] 0 <= k < kept_links(existing, requested).len() ==>
            requested.contains(id_text_spec(kept_links(existing, requested)[k].1))
            && existing.contains(kept_links(existing, requested)[k]),
        forall|k: int| 0 <= k < existing.len() && requested.contains(id_text_spec(#[trigger] existing[k].1))
            ==> kept_links(existing, requested).contains(existing[k]),
    decreases existing.len(),
{
    if existing.len() > 0 {
        let init = existing.drop_last();
        lemma_kept_links(init, requested);
        let kl = kept_links(existing, requested);
        let ki = kept_links(init, requested);
        assert forall|k: int| #![trigger kl[k]] 0 <= k < kl.len() implies requested.contains(id_text_spec(kl[k].1))
            && existing.contains(kl[k]) by {
            if k < ki.len() {
                assert(kl[k] == ki[k]);
                assert(requested.contains(id_text_spec(ki[k].1)) && init.contains(ki[k]));
                let w = choose|w: int| 0 <= w < init.len() && init[w] == ki[k];
                assert(existing[w] == init[w]);
            } else {
                assert(existing[existing.len() - 1] == existing.last());
            }
        }
        assert forall|k: int| 0 <= k < existing.len() && requested.contains(id_text_spec(#[trigger] existing[k].1))
            implies kl.contains(existing[k]) by {
            if k < existing.len() - 1 {
                assert(init[k] == existing[k]);
                assert(ki.contains(init[k]));
                let w = choose|w: int| 0 <= w < ki.len() && ki[w] == init[k];
                assert(kl[w] == ki[w]);
            } else {
                assert(kl[kl.len() - 1] == existing.last());
            }
        }
    }
}

proof fn lemma_added_targets(texts: Seq<Seq<char>>, requested: Seq<Seq<char>>)
    ensures
        forall|k: int| 0 <= k < added_targets(texts, requested).len() ==> exists|m: int|
            0 <= m < requested.len() && !texts.contains(requested[m])
                && uuid_parse(#[trigger] requested[m]) == Some(#[trigger] added_targets(texts, requested)[k]),
        forall|m: int| 0 <= m < requested.len() && !texts.contains(requested[m])
            && (#[trigger] uuid_parse(requested[m])) is Some
            ==> added_targets(texts, requested).contains(uuid_parse(requested[m])->0),
    decreases requested.len(),
{
    if requested.len() > 0 {
        let init = requested.drop_last();
        lemma_added_targets(texts, init);
        let a = added_targets(texts, requested);
        let ai = added_targets(texts, init);
        assert forall|k: int| 0 <= k < a.len() implies exists|m: int|
            0 <= m < requested.len() && !texts.contains(requested[m])
                && uuid_parse(#[trigger] requested[m]) == Some(#[trigger] a[k]) by {
            if k < ai.len() {
                assert(a[k] == ai[k]);
                let m = choose|m: int| 0 <= m < init.len() && !texts.contains(init[m])
                    && uuid_parse(#[trigger] init[m]) == Some(ai[k]);
                assert(requested[m] == init[m]);
            } else {
                let m = requested.len() - 1;
                assert(requested[m] == requested.last());
            }
        }
        assert forall|m: int| 0 <= m < requested.len() && !texts.contains(requested[m])
            && (#[trigger] uuid_parse(requested[m])) is Some implies a.contains(uuid_parse(requested[m])->0) by {
            if m < requested.len() - 1 {
                assert(init[m] == requested[m]);
                assert(uuid_parse(init[m]) is Some);
                assert(ai.contains(uuid_parse(init[m])->0));
                let w = choose|w: int| 0 <= w < ai.len() && ai[w] == uuid_parse(init[m])->0;
                assert(a[w] == ai[w]);
            } else {
                assert(requested[m] == requested.last());
                assert(a[a.len() - 1] == uuid_parse(requested[m])->0);
            }
        }
    }
}

/// With the requested ids written canonically, the targets linked after a replacement
/// are exactly the requested ones: each has its text requested, and each requested text
/// that parses is the text of one of them.
pub proof fn law_links_match_request(existing: Seq<(Id, Id)>, requested: Seq<Seq<char>>)
    requires
        canonical(requested),
    ensures
        forall|k: int| 0 <= k < targets_after(existing, requested).len()
            ==> requested.contains(id_text_spec(#[trigger] targets_after(existing, requested)[k])),
        forall|m: int| 0 <= m < requested.len() && (#[trigger] uuid_parse(requested[m])) is Some
            ==> exists|k: int| 0 <= k < targets_after(existing, requested).len()
                && id_text_spec(#[trigger] targets_after(existing, requested)[k]) == requested[m],
{
    lemma_kept_links(existing, requested);
    let texts = target_texts(existing);
    lemma_added_targets(texts, requested);
    let kl = kept_links(existing, requested);
    let a = added_targets(texts, requested);
    let after = targets_after(existing, requested);
    assert forall|k: int| 0 <= k < after.len() implies requested.contains(id_text_spec(#[trigger] after[k])) by {
        if k < kl.len() {
            assert(after[k] == kl[k].1);
        } else {
            assert(after[k] == a[k - kl.len()]);
            let m = choose|m: int| 0 <= m < requested.len() && !texts.contains(requested[m])
                && uuid_parse(#[trigger] requested[m]) == Some(a[k - kl.len()]);
            assert(requested[m] == requested[m]);
        }
    }
    assert forall|m: int| 0 <= m < requested.len() && (#[trigger] uuid_parse(requested[m])) is Some
        implies exists|k: int| 0 <= k < after.len() && id_text_spec(#[trigger] after[k]) == requested[m] by {
        let id = uuid_parse(requested[m])->0;
        assert(id_text_spec(id) == requested[m]);
        if texts.contains(requested[m]) {
            let w = choose|w: int| 0 <= w < texts.len() && texts[w] == requested[m];
            assert(texts[w] == id_text_spec(existing[w].1));
            assert(requested.contains(id_text_spec(existing[w].1)));
            assert(kl.contains(existing[w]));
            let v = choose|v: int| 0 <= v < kl.len() && kl[v] == existing[w];
            assert(after[v] == kl[v].1);
        } else {
            assert(a.contains(id));
            let v = choose|v: int| 0 <= v < a.len() && a[v] == id;
            assert(after[kl.len() + v] == a[v]);
        }
    }
}

/// With the requested ids written canonically, saving the same request again, once
/// the first save is applied, deletes no link and links nothing new.
pub proof fn law_links_idempotent(existing: Seq<(Id, Id)>, requested: Seq<Seq<char>>, new_links: Seq<Id>)
    requires
        canonical(requested),
        new_links.len() == added_targets(target_texts(existing), requested).len(),
    ensures
        ({
            let after = kept_links(existing, requested) + Seq::new(
                new_links.len(),
                |i: int| (new_links[i], added_targets(target_texts(existing), requested)[i]),
            );
            &&& removed_links(after, requested).len() == 0
            &&& added_targets(target_texts(after), requested).len() == 0
        }),
{
    law_links_match_request(existing, requested);
    let a = added_targets(target_texts(existing), requested);
    let kl = kept_links(existing, requested);
    let after = kl + Seq::new(new_links.len(), |i: int| (new_links[i], a[i]));
    let ta = targets_after(existing, requested);
    assert forall|k: int| 0 <= k < after.len() implies requested.contains(id_text_spec(#[trigger] after[k].1)) by {
        assert(after[k].1 == ta[k]);
    }
    lemma_removed_none(after, requested);
    assert forall|m: int| 0 <= m < requested.len() && (#[trigger] uuid_parse(requested[m])) is Some
        implies target_texts(after).contains(requested[m]) by {
        let k = choose|k: int| 0 <= k < ta.len() && id_text_spec(#[trigger] ta[k]) == requested[m];
        assert(after[k].1 == ta[k]);
        assert(target_texts(after)[k] == requested[m]);
    }
    lemma_added_none(target_texts(after), requested);
}

proof fn lemma_removed_none(links: Seq<(Id, Id)>, requested: Seq<Seq<char>>)
    requires
        forall|k: int| 0 <= k < links.len() ==> requested.contains(id_text_spec(#[trigger] links[k].1)),
    ensures
        removed_links(links, requested).len() == 0,
    decreases links.len(),
{
    if links.len() > 0 {
        let init = links.drop_last();
        assert forall|k: int| 0 <= k < init.len() implies requested.contains(id_text_spec(#[trigger] init[k].1)) by {
            assert(init[k] == links[k]);
        }
        lemma_removed_none(init, requested);
        assert(links.last() == links[links.len() - 1]);
    }
}

proof fn lemma_added_none(texts: Seq<Seq<char>>, requested: Seq<Seq<char>>)
    requires
        forall|m: int| 0 <= m < requested.len() && (#[trigger] uuid_parse(requested[m])) is Some
            ==> texts.contains(requested[m]),
    ensures
        added_targets(texts, requested).len() == 0,
    decreases requested.len(),
{
    if requested.len() > 0 {
        let init = requested.drop_last();
        assert forall|m: int| 0 <= m < init.len() && (#[trigger] uuid_parse(init[m])) is Some
            implies texts.contains(init[m]) by {
            assert(init[m] == requested[m]);
        }
        lemma_added_none(texts, init);
        assert(requested.last() == requested[requested.len() - 1]);
    }
}

} // verus!
