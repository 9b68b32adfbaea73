//! Pieces of SQL text that the administration console writes itself: literals with
//! their quotes doubled, `column = value` assignments, and UPDATE statements.

use vstd::prelude::*;
use crate::model::Id;
use crate::admin::{sanitize_literal, sanitize_literal_spec};
use crate::ids::{id_text, id_text_spec};
use crate::text::{chars_of, string_of, owned, trim, trim_str, join, join_strings, concat, signed_decimal, signed_decimal_chars, replace_char};

verus! {

/// A text literal: between single quotes, with its own quotes doubled.
pub open spec fn quoted(s: Seq<char>) -> Seq<char> {
    seq!['\''] + sanitize_literal_spec(s) + seq!['\'']
}

/// A text that may be blank: `NULL` where it is blank once trimmed, the trimmed text
/// as a literal otherwise.
pub open spec fn nullable(s: Seq<char>) -> Seq<char> {
    if trim(s).len() == 0 {
        "NULL"@
    } else {
        quoted(trim(s))
    }
}

/// A name that needs no escaping (an enum's stored name, a UUID, a timestamp) between
/// single quotes.
pub open spec fn named(s: Seq<char>) -> Seq<char> {
    seq!['\''] + s + seq!['\'']
}

/// A boolean as SQL writes it.
pub open spec fn bool_text(b: bool) -> Seq<char> {
    if b {
        "true"@
    } else {
        "false"@
    }
}

/// `column = value`.
pub open spec fn assign(column: Seq<char>, value: Seq<char>) -> Seq<char> {
    column + " = "@ + value
}

/// The entries that are present, in order.
pub open spec fn present(items: Seq<Option<Seq<char>>>) -> Seq<Seq<char>>
    decreases items.len(),
{
    if items.len() == 0 {
        Seq::empty()
    } else {
        match items.last() {
            Some(x) => present(items.drop_last()).push(x),
            None => present(items.drop_last()),
        }
    }
}

/// The assignment of a text literal, where a value is given.
pub open spec fn text_set(column: Seq<char>, v: Option<Seq<char>>) -> Option<Seq<char>> {
    match v {
        Some(x) => Some(assign(column, quoted(x))),
        None => None,
    }
}

/// The assignment of a text that may be blank, where a value is given.
pub open spec fn nullable_set(column: Seq<char>, v: Option<Seq<char>>) -> Option<Seq<char>> {
    match v {
        Some(x) => Some(assign(column, nullable(x))),
        None => None,
    }
}

/// The assignment of a name, where one is given.
pub open spec fn named_set(column: Seq<char>, v: Option<Seq<char>>) -> Option<Seq<char>> {
    match v {
        Some(x) => Some(assign(column, named(x))),
        None => None,
    }
}

/// The assignment of a boolean, where one is given.
pub open spec fn bool_set(column: Seq<char>, v: Option<bool>) -> Option<Seq<char>> {
    match v {
        Some(b) => Some(assign(column, bool_text(b))),
        None => None,
    }
}

/// The assignment of an integer, where one is given.
pub open spec fn int_set(column: Seq<char>, v: Option<int>) -> Option<Seq<char>> {
    match v {
        Some(n) => Some(assign(column, signed_decimal(n))),
        None => None,
    }
}

/// `UPDATE table SET sets WHERE key = 'id'` followed by `tail`.
pub open spec fn update_sql(table: Seq<char>, sets: Seq<Seq<char>>, key: Seq<char>, id: Id, tail: Seq<char>) -> Seq<char> {
    "UPDATE "@ + table + " SET "@ + join(sets, ", "@) + " WHERE "@ + key + " = '"@ + id_text_spec(id) + "'"@ + tail
}

/// `inner` between single quotes.
fn wrap_quotes(inner: &str) -> (r: String)
    ensures
        r@ == seq!['\''] + inner@ + seq!['\''],
{
    let mut out: Vec<char> = Vec::new();
    out.push('\'');
    let mut cs = chars_of(inner);
    out.append(&mut cs);
    out.push('\'');
    string_of(out.as_slice())
}

/// A text literal.
pub fn quote(s: &str) -> (r: String)
    ensures
        r@ == quoted(s@),
{
    let inner = sanitize_literal(s);
    wrap_quotes(inner.as_str())
}

/// A text that may be blank, as SQL.
pub fn nullable_value(s: &str) -> (r: String)
    ensures
        r@ == nullable(s@),
{
    let t = trim_str(s);
    let tc = chars_of(t.as_str());
    if tc.len() == 0 {
        owned("NULL")
    } else {
        quote(t.as_str())
    }
}

/// A name between single quotes.
pub fn named_value(s: &str) -> (r: String)
    ensures
        r@ == named(s@),
{
    wrap_quotes(s)
}

/// A boolean as SQL.
pub fn bool_value(b: bool) -> (r: String)
    ensures
        r@ == bool_text(b),
{
    if b {
        owned("true")
    } else {
        owned("false")
    }
}

/// `column = value`.
pub fn assignment(column: &str, value: &str) -> (r: String)
    ensures
        r@ == assign(column@, value@),
{
    let head = concat(column, " = ");
    concat(head.as_str(), value)
}

/// The given text literal assigned to `column`.
pub fn text_assignment(column: &str, v: &Option<String>) -> (r: Option<String>)
    ensures
        r.deep_view() == text_set(column@, v.deep_view()),
{
    match v {
        Some(x) => {
            let q = quote(x.as_str());
            Some(assignment(column, q.as_str()))
        },
        None => None,
    }
}

/// The given text, `NULL` where blank, assigned to `column`.
pub fn nullable_assignment(column: &str, v: &Option<String>) -> (r: Option<String>)
    ensures
        r.deep_view() == nullable_set(column@, v.deep_view()),
{
    match v {
        Some(x) => {
            let q = nullable_value(x.as_str());
            Some(assignment(column, q.as_str()))
        },
        None => None,
    }
}

/// The given name assigned to `column`.
pub fn named_assignment(column: &str, v: Option<&str>) -> (r: Option<String>)
    ensures
        r.deep_view() == named_set(column@, match v { Some(x) => Some(x@), None => None }),
{
    match v {
        Some(x) => {
            let q = named_value(x);
            Some(assignment(column, q.as_str()))
        },
        None => None,
    }
}

/// The given boolean assigned to `column`.
pub fn bool_assignment(column: &str, v: Option<bool>) -> (r: Option<String>)
    ensures
        r.deep_view() == bool_set(column@, v),
{
    match v {
        Some(b) => {
            let q = bool_value(b);
            Some(assignment(column, q.as_str()))
        },
        None => None,
    }
}

/// The given integer assigned to `column`.
pub fn int_assignment(column: &str, v: Option<i64>) -> (r: Option<String>)
    ensures
        r.deep_view() == int_set(column@, match v { Some(n) => Some(n as int), None => None }),
{
    match v {
        Some(n) => {
            let d = signed_decimal_chars(n);
            let q = string_of(d.as_slice());
            Some(assignment(column, q.as_str()))
        },
        None => None,
    }
}

/// The entries of `items` that are present, in order.
pub fn keep_present(items: &Vec<Option<String>>) -> (r: Vec<String>)
    ensures
        r.deep_view() == present(items.deep_view()),
{
    let mut out: Vec<String> = Vec::new();
    let mut i: usize = 0;
    assert(out.deep_view() =~= present(items.deep_view().take(0)));
    while i < items.len()
        invariant
            i <= items.len(),
            out.deep_view() == present(items.deep_view().take(i as int)),
        decreases items.len() - i,
    {
        let ghost pre = items.deep_view().take(i as int);
        assert(items.deep_view().take(i + 1).drop_last() =~= pre);
        assert(items.deep_view().take(i + 1).last() == items.deep_view()[i as int]);
        match &items[i] {
            Some(x) => {
                let ghost before = out.deep_view();
                out.push(x.clone());
                assert(out.deep_view() =~= before.push(x@));
            },
            None => {},
        }
        i = i + 1;
    }
    assert(items.deep_view().take(items.len() as int) =~= items.deep_view());
    out
}

/// `UPDATE table SET sets WHERE key = 'id'` followed by `tail`.
pub fn update_statement(table: &str, sets: &Vec<String>, key: &str, id: Id, tail: &str) -> (r: String)
    ensures
        r@ == update_sql(table@, sets.deep_view(), key@, id, tail@),
{
    let s = concat("UPDATE ", table);
    let s = concat(s.as_str(), " SET ");
    let joined = join_strings(sets, ", ");
    let s = concat(s.as_str(), joined.as_str());
    let s = concat(s.as_str(), " WHERE ");
    let s = concat(s.as_str(), key);
    let s = concat(s.as_str(), " = '");
    let idt = id_text(id);
    let s = concat(s.as_str(), idt.as_str());
    let s = concat(s.as_str(), "'");
    concat(s.as_str(), tail)
}

/// How SQL reads the text between the quotes of a literal: a doubled quote stands for
/// one quote; a lone quote would end the literal there, so the text is no literal body.
pub open spec fn literal_text(body: Seq<char>) -> Option<Seq<char>>
    decreases body.len(),
{
    if body.len() == 0 {
        Some(Seq::empty())
    } else if body.last() == '\'' {
        if body.len() >= 2 && body[body.len() - 2] == '\'' {
            match literal_text(body.subrange(0, body.len() - 2)) {
                Some(t) => Some(t.push('\'')),
                None => None,
            }
        } else {
            None
        }
    } else {
        match literal_text(body.drop_last()) {
            Some(t) => Some(t.push(body.last())),
            None => None,
        }
    }
}

/// A text whose quotes `sanitize_literal` doubled is read back by SQL as that same
/// text, each `''` standing for one quote: the doubled text holds no lone quote, so it
/// cannot end the literal early, whatever quotes the text holds.
pub proof fn law_sanitize_literal_reads_back(s: Seq<char>)
    ensures
        literal_text(sanitize_literal_spec(s)) == Some(s),
    decreases s.len(),
{
    if s.len() > 0 {
        let init = s.drop_last();
        law_sanitize_literal_reads_back(init);
        let body = sanitize_literal_spec(s);
        assert(init.push(s.last()) =~= s);
        if s.last() == '\'' {
            assert(body == sanitize_literal_spec(init) + seq!['\'', '\'']);
            assert(body.subrange(0, body.len() - 2) =~= sanitize_literal_spec(init));
        } else {
            assert(body == sanitize_literal_spec(init).push(s.last()));
            assert(body.drop_last() =~= sanitize_literal_spec(init));
        }
    } else {
        assert(sanitize_literal_spec(s) =~= Seq::<char>::empty());
    }
}

/// `t` with every `''` read from the left as one quote, as `str::replace("''", "'")`
/// does: occurrences are taken from the left and do not overlap.
pub open spec fn undouble_quotes(t: Seq<char>) -> Seq<char>
    decreases t.len(),
{
    if t.len() == 0 {
        Seq::empty()
    } else if t.len() >= 2 && t[0] == '\'' && t[1] == '\'' {
        seq!['\''] + undouble_quotes(t.skip(2))
    } else {
        seq![t[0]] + undouble_quotes(t.skip(1))
    }
}

/// How many quotes stand right before position `n` of `t`, one after the other.
pub open spec fn quotes_before(t: Seq<char>, n: int) -> nat
    decreases n,
{
    if n <= 0 || n > t.len() || t[n - 1] != '\'' {
        0
    } else {
        1 + quotes_before(t, n - 1)
    }
}

/// Every maximal run of quotes in `t` (one that ends at the end of `t` or before
/// another character) has even length.
pub open spec fn quote_runs_even(t: Seq<char>) -> bool {
    forall|n: int|
        0 <= n <= t.len() && (n == t.len() || t[n] != '\'') ==> #[trigger] quotes_before(t, n) % 2 == 0
}

proof fn lemma_replace_concat(a: Seq<char>, b: Seq<char>, c: char, rep: Seq<char>)
    ensures
        replace_char(a + b, c, rep) == replace_char(a, c, rep) + replace_char(b, c, rep),
    decreases b.len(),
{
    if b.len() == 0 {
        assert(a + b =~= a);
        assert(replace_char(b, c, rep) =~= Seq::<char>::empty());
        assert(replace_char(a, c, rep) + Seq::<char>::empty() =~= replace_char(a, c, rep));
    } else {
        lemma_replace_concat(a, b.drop_last(), c, rep);
        assert((a + b).drop_last() =~= a + b.drop_last());
        assert((a + b).last() == b.last());
        if b.last() == c {
            assert(replace_char(a, c, rep) + replace_char(b.drop_last(), c, rep) + rep
                =~= replace_char(a, c, rep) + (replace_char(b.drop_last(), c, rep) + rep));
        } else {
            assert((replace_char(a, c, rep) + replace_char(b.drop_last(), c, rep)).push(b.last())
                =~= replace_char(a, c, rep) + replace_char(b.drop_last(), c, rep).push(b.last()));
        }
    }
}

proof fn lemma_sanitize_front(v: Seq<char>)
    requires
        v.len() > 0,
    ensures
        sanitize_literal_spec(v) == (if v[0] == '\'' { seq!['\'', '\''] } else { seq![v[0]] })
            + sanitize_literal_spec(v.skip(1)),
{
    assert(v =~= seq![v[0]] + v.skip(1));
    lemma_replace_concat(seq![v[0]], v.skip(1), '\'', seq!['\'', '\'']);
    let one = seq![v[0]];
    assert(one.drop_last() =~= Seq::<char>::empty());
    assert(one.last() == v[0]);
    let none = replace_char(Seq::<char>::empty(), '\'', seq!['\'', '\'']);
    assert(none == Seq::<char>::empty());
    if v[0] == '\'' {
        assert(none + seq!['\'', '\''] =~= seq!['\'', '\'']);
    } else {
        assert(none.push(v[0]) =~= seq![v[0]]);
    }
}

proof fn lemma_quotes_before_prefix(a: Seq<char>, b: Seq<char>, n: int)
    requires
        0 <= n <= a.len(),
    ensures
        quotes_before(a + b, n) == quotes_before(a, n),
    decreases n,
{
    if n > 0 {
        lemma_quotes_before_prefix(a, b, n - 1);
    }
}

proof fn lemma_sanitize_runs_even(v: Seq<char>)
    ensures
        quote_runs_even(sanitize_literal_spec(v)),
    decreases v.len(),
{
    let t = sanitize_literal_spec(v);
    if v.len() == 0 {
        assert(t =~= Seq::<char>::empty());
        assert forall|n: int|
            0 <= n <= t.len() && (n == t.len() || t[n] != '\'') implies #[trigger] quotes_before(t, n) % 2 == 0 by {}
    } else {
        let init = v.drop_last();
        let c = v.last();
        lemma_sanitize_runs_even(init);
        let u = sanitize_literal_spec(init);
        let tail: Seq<char> = if c == '\'' { seq!['\'', '\''] } else { seq![c] };
        assert(t == u + tail) by {
            assert(v == init.push(c));
            if c == '\'' {
                assert(u + seq!['\'', '\''] == u + tail);
            } else {
                assert(u.push(c) =~= u + tail);
            }
        }
        assert forall|n: int|
            0 <= n <= t.len() && (n == t.len() || t[n] != '\'') implies #[trigger] quotes_before(t, n) % 2 == 0 by {
            if n <= u.len() {
                lemma_quotes_before_prefix(u, tail, n);
                if n < u.len() {
                    assert(t[n] == u[n]);
                } else {
                    assert(t[n] == tail[0]);
                }
                assert(quotes_before(u, n) % 2 == 0);
            } else if c == '\'' {
                assert(n == u.len() + 2);
                lemma_quotes_before_prefix(u, tail, u.len() as int);
                assert(quotes_before(u, u.len() as int) % 2 == 0);
                assert(t[n - 1] == '\'');
                assert(t[n - 2] == '\'');
                assert(quotes_before(t, n - 1) == 1 + quotes_before(t, n - 2));
                assert(quotes_before(t, n) == 1 + quotes_before(t, n - 1));
            } else {
                assert(n == u.len() + 1);
                assert(t[n - 1] == c);
            }
        }
    }
}

/// What `sanitize_literal` makes of a text cannot close the literal it stands in, and
/// undoes cleanly: every maximal run of quotes in it has even length, and replacing
/// each `''` (read from the left) by one quote gives the text back.
pub proof fn law_sanitize_literal_undoes(v: Seq<char>)
    ensures
        quote_runs_even(sanitize_literal_spec(v)),
        undouble_quotes(sanitize_literal_spec(v)) == v,
    decreases v.len(),
{
    lemma_sanitize_runs_even(v);
    if v.len() == 0 {
        assert(sanitize_literal_spec(v) =~= Seq::<char>::empty());
        assert(v =~= Seq::<char>::empty());
    } else {
        law_sanitize_literal_undoes(v.skip(1));
        lemma_sanitize_front(v);
        let rest = sanitize_literal_spec(v.skip(1));
        let t = sanitize_literal_spec(v);
        if v[0] == '\'' {
            assert(t.skip(2) =~= rest);
            assert(t[0] == '\'' && t[1] == '\'');
        } else {
            assert(t.skip(1) =~= rest);
            assert(t[0] == v[0]);
        }
        assert(v =~= seq![v[0]] + v.skip(1));
    }
}

/// `needle` stands in `hay` as consecutive characters.
pub open spec fn occurs_in(needle: Seq<char>, hay: Seq<char>) -> bool {
    exists|i: int| 0 <= i && i + needle.len() <= hay.len() && #[trigger] hay.subrange(i, i + needle.len()) == needle
}

/// Every entry that is given is among the present ones.
pub proof fn lemma_present_contains(items: Seq<Option<Seq<char>>>, k: int)
    requires
        0 <= k < items.len(),
        items[k] is Some,
    ensures
        present(items).contains(items[k].unwrap()),
    decreases items.len(),
{
    let x = items[k].unwrap();
    let p = present(items.drop_last());
    if k == items.len() - 1 {
        assert(present(items) == p.push(x));
        assert(p.push(x)[p.len() as int] == x);
    } else {
        assert(items.drop_last()[k] == items[k]);
        lemma_present_contains(items.drop_last(), k);
        let j = choose|j: int| 0 <= j < p.len() && p[j] == x;
        match items.last() {
            Some(y) => {
                assert(present(items) == p.push(y));
                assert(p.push(y)[j] == x);
            },
            None => {},
        }
    }
}

/// Appending an entry appends it to the present ones where it is given.
pub proof fn lemma_present_push(items: Seq<Option<Seq<char>>>, o: Option<Seq<char>>)
    ensures
        present(items.push(o)) == match o {
            Some(x) => present(items).push(x),
            None => present(items),
        },
{
    assert(items.push(o).drop_last() =~= items);
}

/// Each part stands in the joined text.
pub proof fn lemma_join_occurs(parts: Seq<Seq<char>>, sep: Seq<char>, k: int)
    requires
        0 <= k < parts.len(),
    ensures
        occurs_in(parts[k], join(parts, sep)),
    decreases parts.len(),
{
    let whole = join(parts, sep);
    if parts.len() == 1 {
        assert(whole == parts[0]);
        let i: int = 0;
        assert(whole.subrange(i, i + parts[k].len()) =~= parts[k]);
    } else {
        let pre = join(parts.drop_last(), sep);
        assert(whole == pre + sep + parts.last());
        if k == parts.len() - 1 {
            let i: int = (pre.len() + sep.len()) as int;
            assert(whole.subrange(i, i + parts[k].len()) =~= parts[k]);
            assert(occurs_in(parts[k], whole));
        } else {
            assert(parts.drop_last()[k] == parts[k]);
            lemma_join_occurs(parts.drop_last(), sep, k);
            let i = choose|i: int|
                0 <= i && i + parts[k].len() <= pre.len() && #[trigger] pre.subrange(i, i + parts[k].len()) == parts[k];
            assert(whole.subrange(i, i + parts[k].len()) =~= pre.subrange(i, i + parts[k].len()));
            assert(occurs_in(parts[k], whole));
        }
    }
}

} // verus!
