//! JSON documents as the library handles them: masking secrets before they are
//! recorded in the audit trail, and reading user preferences.

use vstd::prelude::*;
use crate::text::{chars_of, chars_eq, owned, text_eq, concat, join, join_strings};

verus! {

/// A JSON value. Numbers are kept as their text; an object keeps its members in order.
#[derive(Debug)]
pub enum Json {
    Null,
    Bool(bool),
    Number(String),
    Str(String),
    Array(Vec<Json>),
    Object(Vec<(String, Json)>),
}

/// `c` lowercased where it is an ASCII capital or the Kelvin sign (whose lowercase is
/// `k`); any other character as it is. For comparing with lowercase ASCII words this
/// is the same as `char::to_lowercase`: no other character lowercases to ASCII letters,
/// `_` or digits.
pub open spec fn fold_lower(c: char) -> char {
    if 'A' <= c && c <= 'Z' {
        (((c as u8) + 32) as u8) as char
    } else if c == '\u{212A}' {
        'k'
    } else {
        c
    }
}

/// `k` lowercased equals `word`, a lowercase ASCII word.
pub open spec fn lower_equals(k: Seq<char>, word: Seq<char>) -> bool {
    k.len() == word.len() && forall|i: int| 0 <= i < k.len() ==> fold_lower(#[trigger] k[i]) == word[i]
}

/// The words that mark a key as naming a secret, in lowercase: passwords, secrets,
/// tokens and private keys.
pub open spec fn masked_words() -> Seq<Seq<char>> {
    seq!["password"@, "secret"@, "token"@, "private_key"@, "privatekey"@]
}

/// `k` lowercased contains `word` somewhere.
pub open spec fn lower_contains(k: Seq<char>, word: Seq<char>) -> bool {
    exists|i: int| 0 <= i && i + word.len() <= k.len() && #[trigger] lower_equals(k.subrange(i, i + word.len()), word)
}

/// The key names a secret: lowercased, it contains one of the masked words, as
/// `accessToken`, `client_secret` or `newPassword` do.
pub open spec fn is_masked_key(k: Seq<char>) -> bool {
    exists|i: int| 0 <= i < masked_words().len() && lower_contains(k, #[trigger] masked_words()[i])
}

/// `after` is `before` with the string value of every member whose key names a
/// secret replaced by `***`, at any depth; members keep their keys and order, and
/// everything else is unchanged.
pub open spec fn sanitized(before: Json, after: Json) -> bool
    decreases before,
{
    match before {
        Json::Object(kvs) => match after {
            Json::Object(out) => {
                &&& out.len() == kvs.len()
                &&& forall|i: int|
                    #![trigger out@[i]]
                    0 <= i < kvs.len() ==> {
                        &&& out@[i].0@ == kvs@[i].0@
                        &&& if is_masked_key(kvs@[i].0@) && kvs@[i].1 is Str {
                            out@[i].1 matches Json::Str(s) && s@ == "***"@
                        } else {
                            sanitized(kvs@[i].1, out@[i].1)
                        }
                    }
            },
            _ => false,
        },
        Json::Array(a) => match after {
            Json::Array(b) => b.len() == a.len() && forall|i: int|
                #![trigger b@[i]]
                0 <= i < a.len() ==> sanitized(a@[i], b@[i]),
            _ => false,
        },
        _ => after == before,
    }
}

fn fold_lower_char(c: char) -> (r: char)
    ensures
        r == fold_lower(c),
{
    if 'A' <= c && c <= 'Z' {
        (((c as u8) + 32) as u8) as char
    } else if c == '\u{212A}' {
        'k'
    } else {
        c
    }
}

fn lower_eq_at(k: &[char], start: usize, w: &[char]) -> (r: bool)
    requires
        start + w.len() <= k.len(),
    ensures
        r == lower_equals(k@.subrange(start as int, start + w.len()), w@),
{
    let ghost sub = k@.subrange(start as int, start + w.len());
    let mut j: usize = 0;
    while j < w.len()
        invariant
            j <= w.len(),
            start + w.len() <= k.len(),
            sub == k@.subrange(start as int, start + w.len()),
            forall|m: int| 0 <= m < j ==> fold_lower(#[trigger] sub[m]) == w@[m],
        decreases w.len() - j,
    {
        assert(sub[j as int] == k@[start + j]);
        if fold_lower_char(k[start + j]) != w[j] {
            assert(!(fold_lower(sub[j as int]) == w@[j as int]));
            return false;
        }
        j = j + 1;
    }
    true
}

fn lower_contains_word(k: &[char], word: &str) -> (r: bool)
    ensures
        r == lower_contains(k@, word@),
{
    let w = chars_of(word);
    if w.len() > k.len() {
        return false;
    }
    let mut i: usize = 0;
    while i <= k.len() - w.len()
        invariant
            w@ == word@,
            w.len() <= k.len(),
            i <= k.len() - w.len() + 1,
            forall|p: int| 0 <= p < i ==> !#[trigger] lower_equals(k@.subrange(p, p + w@.len()), w@),
        decreases k.len() - i,
    {
        if lower_eq_at(k, i, w.as_slice()) {
            return true;
        }
        i = i + 1;
    }
    false
}

/// Whether a key names a secret.
pub fn masked_key(key: &str) -> (r: bool)
    ensures
        r == is_masked_key(key@),
{
    let k = chars_of(key);
    let words: [&str; 5] = ["password", "secret", "token", "private_key", "privatekey"];
    assert(words@.len() == 5);
    let mut i: usize = 0;
    while i < 5
        invariant
            i <= 5,
            k@ == key@,
            words@ == seq!["password", "secret", "token", "private_key", "privatekey"],
            forall|j: int| 0 <= j < i ==> !lower_contains(key@, #[trigger] masked_words()[j]),
        decreases 5 - i,
    {
        assert(words@[i as int]@ == masked_words()[i as int]);
        if lower_contains_word(k.as_slice(), words[i]) {
            return true;
        }
        i = i + 1;
    }
    false
}

/// Masks the secrets of a JSON value before it is recorded.
pub fn sanitize_audit_value(value: &Json) -> (r: Json)
    ensures
        sanitized(*value, r),
    decreases value,
{
    match value {
        Json::Object(kvs) => {
            let mut out: Vec<(String, Json)> = Vec::new();
            let mut i: usize = 0;
            while i < kvs.len()
                invariant
                    i <= kvs.len(),
                    *value == Json::Object(*kvs),
                    out.len() == i,
                    forall|j: int|
                        #![trigger out@[j]]
                        0 <= j < i ==> {
                            &&& out@[j].0@ == kvs@[j].0@
                            &&& if is_masked_key(kvs@[j].0@) && kvs@[j].1 is Str {
                                out@[j].1 matches Json::Str(s) && s@ == "***"@
                            } else {
                                sanitized(kvs@[j].1, out@[j].1)
                            }
                        },
                decreases kvs.len() - i,
            {
                let k = &kvs[i].0;
                let v = &kvs[i].1;
                let nv = if masked_key(k.as_str()) && matches!(v, Json::Str(_)) {
                    Json::Str(owned("***"))
                } else {
                    proof {
                        let ghost m = value->Object_0;
                        assert(decreases_to!(*value => value->Object_0));
                        assert(decreases_to!(m => m@));
                        assert(decreases_to!(m@ => m@[i as int]));
                        assert(decreases_to!(m@[i as int] => m@[i as int].1));
                        assert(decreases_to!(*value => m@[i as int].1));
                    }
                    sanitize_audit_value(v)
                };
                out.push((k.clone(), nv));
                i = i + 1;
            }
            Json::Object(out)
        },
        Json::Array(a) => {
            let mut out: Vec<Json> = Vec::new();
            let mut i: usize = 0;
            while i < a.len()
                invariant
                    i <= a.len(),
                    *value == Json::Array(*a),
                    out.len() == i,
                    forall|j: int| #![trigger out@[j]] 0 <= j < i ==> sanitized(a@[j], out@[j]),
                decreases a.len() - i,
            {
                proof {
                    let ghost m = value->Array_0;
                    assert(decreases_to!(*value => value->Array_0));
                    assert(decreases_to!(m => m@));
                    assert(decreases_to!(m@ => m@[i as int]));
                    assert(decreases_to!(*value => m@[i as int]));
                }
                let nv = sanitize_audit_value(&a[i]);
                out.push(nv);
                i = i + 1;
            }
            Json::Array(out)
        },
        Json::Null => Json::Null,
        Json::Bool(b) => Json::Bool(*b),
        Json::Number(n) => Json::Number(n.clone()),
        Json::Str(s) => Json::Str(s.clone()),
    }
}

/// Masks the secrets of an optional JSON value.
pub fn opt_sanitize(value: &Option<Json>) -> (r: Option<Json>)
    ensures
        match value {
            Some(v) => r matches Some(x) && sanitized(*v, x),
            None => r is None,
        },
{
    match value {
        Some(v) => Some(sanitize_audit_value(v)),
        None => None,
    }
}

/// The value of the first member of an object named `key`; nothing for other values.
pub open spec fn json_member(v: Json, key: Seq<char>) -> Option<Json> {
    match v {
        Json::Object(kvs) => if exists|i: int| 0 <= i < kvs.len() && kvs@[i].0@ == key {
            let i = choose|i: int|
                0 <= i < kvs.len() && kvs@[i].0@ == key && forall|j: int| 0 <= j < i ==> kvs@[j].0@ != key;
            Some(kvs@[i].1)
        } else {
            None
        },
        _ => None,
    }
}

/// The string elements of an array, in order; none for other values.
pub open spec fn json_strings(v: Json) -> Seq<Seq<char>> {
    match v {
        Json::Array(a) => strings_of(a@),
        _ => Seq::empty(),
    }
}

/// The string elements of `items`, in order.
pub open spec fn strings_of(items: Seq<Json>) -> Seq<Seq<char>>
    decreases items.len(),
{
    if items.len() == 0 {
        Seq::empty()
    } else {
        match items.last() {
            Json::Str(s) => strings_of(items.drop_last()).push(s@),
            _ => strings_of(items.drop_last()),
        }
    }
}

/// The codes of the systems the user pinned on the home page: the strings of the
/// `frequentSystems` array of the preferences.
#[verifier::spinoff_prover]
pub fn frequent_systems(preferences: &Json) -> (r: Vec<String>)
    ensures
        r.deep_view() == match json_member(*preferences, "frequentSystems"@) {
            Some(v) => json_strings(v),
            None => Seq::empty(),
        },
{
    let empty: Vec<String> = Vec::new();
    assert(empty.deep_view() =~= Seq::<Seq<char>>::empty());
    match preferences {
        Json::Object(kvs) => {
            let mut i: usize = 0;
            while i < kvs.len()
                invariant
                    i <= kvs.len(),
                    *preferences == Json::Object(*kvs),
                    empty.deep_view() == Seq::<Seq<char>>::empty(),
                    forall|j: int| 0 <= j < i ==> kvs@[j].0@ != "frequentSystems"@,
                decreases kvs.len() - i,
            {
                if text_eq(kvs[i].0.as_str(), "frequentSystems") {
                    proof {
                        let key = "frequentSystems"@;
                        assert(kvs@[i as int].0@ == key);
                        assert(exists|x: int| 0 <= x < kvs.len() && kvs@[x].0@ == key);
                        assert(0 <= i < kvs.len() && kvs@[i as int].0@ == key && forall|j: int|
                            0 <= j < i ==> kvs@[j].0@ != key);
                        let w = choose|w: int|
                            0 <= w < kvs.len() && kvs@[w].0@ == key && forall|j: int|
                                0 <= j < w ==> kvs@[j].0@ != key;
                        if w < i {
                            assert(kvs@[w].0@ != key);
                        }
                        if w > i {
                            assert(kvs@[i as int].0@ != key);
                        }
                        assert(w == i);
                        assert(json_member(*preferences, key) == Some(kvs@[i as int].1));
                    }
                    return match &kvs[i].1 {
                        Json::Array(items) => collect_strings(items),
                        _ => empty,
                    };
                }
                i = i + 1;
            }
            empty
        },
        _ => empty,
    }
}

fn collect_strings(items: &Vec<Json>) -> (r: Vec<String>)
    ensures
        r.deep_view() == strings_of(items@),
{
    let mut r: Vec<String> = Vec::new();
    let mut i: usize = 0;
    assert(r.deep_view() =~= Seq::<Seq<char>>::empty());
    while i < items.len()
        invariant
            i <= items.len(),
            r.deep_view() == strings_of(items@.take(i as int)),
        decreases items.len() - i,
    {
        assert(items@.take(i + 1).drop_last() =~= items@.take(i as int));
        assert(items@.take(i + 1).last() == items@[i as int]);
        match &items[i] {
            Json::Str(s) => {
                let ghost prev = r.deep_view();
                let x = s.clone();
                r.push(x);
                assert(r.deep_view() =~= prev.push(x@));
            },
            _ => {},
        }
        i = i + 1;
    }
    assert(items@.take(items.len() as int) =~= items@);
    r
}

/// The line `KEY=value` for one member of an environment template; a value that is not
/// a string is left empty.
pub open spec fn env_line(member: (String, Json)) -> Seq<char> {
    member.0@ + "="@ + match member.1 {
        Json::Str(v) => v@,
        _ => ""@,
    }
}

/// The example `.env` text of an environment template: one `KEY=value` line per member,
/// in order, separated by newlines; nothing for a template that is not an object.
pub open spec fn env_example_spec(template: Json) -> Seq<char> {
    match template {
        Json::Object(kvs) => join(Seq::new(kvs@.len(), |i: int| env_line(kvs@[i])), "\n"@),
        _ => ""@,
    }
}

/// The example `.env` text of an environment template.
pub fn env_example(template: &Json) -> (r: String)
    ensures
        r@ == env_example_spec(*template),
{
    match template {
        Json::Object(kvs) => {
            let mut lines: Vec<String> = Vec::new();
            let mut i: usize = 0;
            while i < kvs.len()
                invariant
                    i <= kvs.len(),
                    lines.deep_view() == Seq::new(i as nat, |j: int| env_line(kvs@[j])),
                decreases kvs.len() - i,
            {
                let ghost before = lines.deep_view();
                let head = concat(kvs[i].0.as_str(), "=");
                let line = match &kvs[i].1 {
                    Json::Str(v) => concat(head.as_str(), v.as_str()),
                    _ => concat(head.as_str(), ""),
                };
                assert(line@ == env_line(kvs@[i as int])) by {
                    if !(kvs@[i as int].1 is Str) {
                        assert(head@ + ""@ == head@ + ""@);
                    }
                }
                let ghost lv = line@;
                lines.push(line);
                assert(lines.deep_view() =~= before.push(lv));
                assert(lines.deep_view() =~= Seq::new((i + 1) as nat, |j: int| env_line(kvs@[j])));
                i = i + 1;
            }
            join_strings(&lines, "\n")
        },
        _ => owned(""),
    }
}

} // verus!
