//! Character-level text helpers with exact contracts over `Seq<char>`.

use vstd::prelude::*;

verus! {

/// The characters of `s`, in order.
pub fn chars_of(s: &str) -> (v: Vec<char>)
    ensures
        v@ == s@,
{
    let mut v: Vec<char> = Vec::new();
    for c in it: s.chars()
        invariant
            v@ == it.seq().take(it.index() as int),
    {
        v.push(c);
    }
    v
}

/// Appends one character to a string (`String::push`).
#[verifier::external_body]
pub(crate) fn push_char(s: &mut String, c: char)
    ensures
        final(s)@ == old(s)@.push(c),
{
    s.push(c);
}

/// A string holding exactly the characters `cs`.
pub fn string_of(cs: &[char]) -> (s: String)
    ensures
        s@ == cs@,
{
    let mut s = String::new();
    let mut i: usize = 0;
    while i < cs.len()
        invariant
            i <= cs.len(),
            s@ == cs@.take(i as int),
        decreases cs.len() - i,
    {
        push_char(&mut s, cs[i]);
        assert(cs@.take(i as int).push(cs@[i as int]) =~= cs@.take(i + 1));
        i = i + 1;
    }
    assert(cs@.take(cs@.len() as int) =~= cs@);
    s
}

/// A fresh `String` with the contents of `s`.
pub fn owned(s: &str) -> (r: String)
    ensures
        r@ == s@,
{
    let cs = chars_of(s);
    string_of(cs.as_slice())
}

/// Whether two character sequences are equal, element by element.
pub fn chars_eq(a: &[char], b: &[char]) -> (r: bool)
    ensures
        r == (a@ == b@),
{
    if a.len() != b.len() {
        return false;
    }
    let mut i: usize = 0;
    while i < a.len()
        invariant
            i <= a.len(),
            a.len() == b.len(),
            forall|j: int| 0 <= j < i ==> a@[j] == b@[j],
        decreases a.len() - i,
    {
        if a[i] != b[i] {
            return false;
        }
        i = i + 1;
    }
    assert(a@ =~= b@);
    true
}

/// Whether two strings hold the same characters.
pub fn text_eq(a: &str, b: &str) -> (r: bool)
    ensures
        r == (a@ == b@),
{
    let ca = chars_of(a);
    let cb = chars_of(b);
    chars_eq(ca.as_slice(), cb.as_slice())
}

/// Whether `c` occurs in `s`.
pub fn has_char(s: &[char], c: char) -> (r: bool)
    ensures
        r == s@.contains(c),
{
    let mut i: usize = 0;
    while i < s.len()
        invariant
            i <= s.len(),
            forall|j: int| 0 <= j < i ==> s@[j] != c,
        decreases s.len() - i,
    {
        if s[i] == c {
            return true;
        }
        i = i + 1;
    }
    false
}

/// `xs` with `x` appended unless it already occurs.
pub open spec fn insert_unique<T>(xs: Seq<T>, x: T) -> Seq<T> {
    if xs.contains(x) {
        xs
    } else {
        xs.push(x)
    }
}

/// Inserts every element of `ys`, in order, into `xs` by `insert_unique`.
pub open spec fn insert_all<T>(xs: Seq<T>, ys: Seq<T>) -> Seq<T>
    decreases ys.len(),
{
    if ys.len() == 0 {
        xs
    } else {
        insert_unique(insert_all(xs, ys.drop_last()), ys.last())
    }
}

/// The distinct elements of `ys`, each at the place of its first occurrence.
pub open spec fn dedup<T>(ys: Seq<T>) -> Seq<T> {
    insert_all(Seq::empty(), ys)
}

/// Inserting a concatenation is inserting its two parts in turn.
pub proof fn lemma_insert_all_concat<T>(xs: Seq<T>, a: Seq<T>, b: Seq<T>)
    ensures
        insert_all(xs, a + b) == insert_all(insert_all(xs, a), b),
    decreases b.len(),
{
    if b.len() == 0 {
        assert(a + b =~= a);
    } else {
        assert((a + b).drop_last() =~= a + b.drop_last());
        assert((a + b).last() == b.last());
        lemma_insert_all_concat(xs, a, b.drop_last());
    }
}

/// An element occurs in `insert_all(xs, ys)` exactly when it occurs in `xs` or `ys`,
/// and no element occurs twice when none did in `xs`.
pub proof fn lemma_insert_all_contents<T>(xs: Seq<T>, ys: Seq<T>)
    requires
        xs.no_duplicates(),
    ensures
        insert_all(xs, ys).no_duplicates(),
        forall|x: T| insert_all(xs, ys).contains(x) <==> (xs.contains(x) || ys.contains(x)),
    decreases ys.len(),
{
    if ys.len() > 0 {
        lemma_insert_all_contents(xs, ys.drop_last());
        let prev = insert_all(xs, ys.drop_last());
        let y = ys.last();
        assert forall|x: T| insert_all(xs, ys).contains(x) <==> (xs.contains(x) || ys.contains(x)) by {
            if ys.contains(x) && !ys.drop_last().contains(x) {
                let k = choose|k: int| 0 <= k < ys.len() && ys[k] == x;
                if k < ys.len() - 1 {
                    assert(ys.drop_last()[k] == x);
                }
                assert(x == y);
            }
            if ys.drop_last().contains(x) {
                let k = choose|k: int| 0 <= k < ys.drop_last().len() && ys.drop_last()[k] == x;
                assert(ys[k] == x);
            }
            if !prev.contains(y) && prev.push(y).contains(x) {
                let k = choose|k: int| 0 <= k < prev.push(y).len() && prev.push(y)[k] == x;
                if k < prev.len() {
                    assert(prev[k] == x);
                }
            }
            if prev.contains(x) && !prev.contains(y) {
                let k = choose|k: int| 0 <= k < prev.len() && prev[k] == x;
                assert(prev.push(y)[k] == x);
            }
            if x == y && !prev.contains(y) {
                assert(prev.push(y)[prev.len() as int] == y);
            }
        }
    }
}

/// Inserts `x` into `v` unless an equal string is already there.
pub fn push_unique(v: &mut Vec<String>, x: String)
    ensures
        final(v).deep_view() == insert_unique(old(v).deep_view(), x@),
{
    let ghost old_v = v.deep_view();
    let mut i: usize = 0;
    while i < v.len()
        invariant
            i <= v.len(),
            v.deep_view() == old_v,
            forall|j: int| 0 <= j < i ==> old_v[j] != x@,
        decreases v.len() - i,
    {
        if text_eq(v[i].as_str(), x.as_str()) {
            assert(old_v[i as int] == x@);
            assert(old_v.contains(x@));
            return;
        }
        i = i + 1;
    }
    assert(!old_v.contains(x@));
    v.push(x);
    assert(v.deep_view() =~= old_v.push(x@));
}

/// Inserts every string of `xs`, in order, by `push_unique`.
pub fn push_all_unique(v: &mut Vec<String>, xs: &Vec<String>)
    ensures
        final(v).deep_view() == insert_all(old(v).deep_view(), xs.deep_view()),
{
    let ghost start = v.deep_view();
    let mut i: usize = 0;
    while i < xs.len()
        invariant
            i <= xs.len(),
            v.deep_view() == insert_all(start, xs.deep_view().take(i as int)),
        decreases xs.len() - i,
    {
        let x = xs[i].clone();
        push_unique(v, x);
        assert(xs.deep_view().take(i + 1).drop_last() =~= xs.deep_view().take(i as int));
        i = i + 1;
    }
    assert(xs.deep_view().take(xs.len() as int) =~= xs.deep_view());
}

} // verus!

verus! {

/// A copy of a list of strings.
pub fn clone_strings(v: &Vec<String>) -> (r: Vec<String>)
    ensures
        r.deep_view() == v.deep_view(),
{
    let mut r: Vec<String> = Vec::new();
    let mut i: usize = 0;
    while i < v.len()
        invariant
            i <= v.len(),
            r.deep_view() == v.deep_view().take(i as int),
        decreases v.len() - i,
    {
        let ghost prev = r.deep_view();
        let x = v[i].clone();
        assert(x@ == v.deep_view()[i as int]);
        r.push(x);
        assert(r.deep_view() =~= prev.push(x@));
        assert(r.deep_view() =~= v.deep_view().take(i + 1));
        i = i + 1;
    }
    assert(v.deep_view().take(v.len() as int) =~= v.deep_view());
    r
}

/// A copy of an optional string.
pub fn clone_opt(o: &Option<String>) -> (r: Option<String>)
    ensures
        r == *o,
{
    match o {
        Some(s) => Some(s.clone()),
        None => None,
    }
}

/// The characters of `a` followed by those of `b`.
pub fn concat(a: &str, b: &str) -> (r: String)
    ensures
        r@ == a@ + b@,
{
    let mut cs = chars_of(a);
    let mut cb = chars_of(b);
    cs.append(&mut cb);
    string_of(cs.as_slice())
}

} // verus!

verus! {

// ---------------------------------------------------------------------------
// Whitespace and trimming
// ---------------------------------------------------------------------------

/// Unicode `White_Space`, the property by which `str::trim` strips characters.
pub open spec fn is_ws(c: char) -> bool {
    ||| ('\u{9}' <= c && c <= '\u{d}')
    ||| c == ' '
    ||| c == '\u{85}'
    ||| c == '\u{a0}'
    ||| c == '\u{1680}'
    ||| ('\u{2000}' <= c && c <= '\u{200a}')
    ||| c == '\u{2028}'
    ||| c == '\u{2029}'
    ||| c == '\u{202f}'
    ||| c == '\u{205f}'
    ||| c == '\u{3000}'
}

/// Whether `c` is white space.
pub fn is_whitespace(c: char) -> (r: bool)
    ensures
        r == is_ws(c),
{
    ('\u{9}' <= c && c <= '\u{d}') || c == ' ' || c == '\u{85}' || c == '\u{a0}' || c == '\u{1680}'
        || ('\u{2000}' <= c && c <= '\u{200a}') || c == '\u{2028}' || c == '\u{2029}' || c == '\u{202f}'
        || c == '\u{205f}' || c == '\u{3000}'
}

/// `s` without its leading white space.
pub open spec fn trim_start(s: Seq<char>) -> Seq<char>
    decreases s.len(),
{
    if s.len() > 0 && is_ws(s[0]) {
        trim_start(s.drop_first())
    } else {
        s
    }
}

/// `s` without its trailing white space.
pub open spec fn trim_end(s: Seq<char>) -> Seq<char>
    decreases s.len(),
{
    if s.len() > 0 && is_ws(s.last()) {
        trim_end(s.drop_last())
    } else {
        s
    }
}

/// `s` without leading and trailing white space, as `str::trim` gives it.
pub open spec fn trim(s: Seq<char>) -> Seq<char> {
    trim_end(trim_start(s))
}

proof fn lemma_trim_start_skip(s: Seq<char>, i: int)
    requires
        0 <= i <= s.len(),
        forall|j: int| 0 <= j < i ==> is_ws(#[trigger] s[j]),
    ensures
        trim_start(s) == trim_start(s.skip(i)),
    decreases i,
{
    if i > 0 {
        assert(s.skip(1) =~= s.drop_first());
        assert forall|j: int| 0 <= j < i - 1 implies is_ws(#[trigger] s.drop_first()[j]) by {
            assert(s.drop_first()[j] == s[j + 1]);
        }
        lemma_trim_start_skip(s.drop_first(), i - 1);
        assert(s.drop_first().skip(i - 1) =~= s.skip(i));
    } else {
        assert(s.skip(0) =~= s);
    }
}

proof fn lemma_trim_end_take(s: Seq<char>, i: int)
    requires
        0 <= i <= s.len(),
        forall|j: int| i <= j < s.len() ==> is_ws(#[trigger] s[j]),
    ensures
        trim_end(s) == trim_end(s.take(i)),
    decreases s.len() - i,
{
    if i < s.len() {
        assert forall|j: int| i <= j < s.len() - 1 implies is_ws(#[trigger] s.drop_last()[j]) by {
            assert(s.drop_last()[j] == s[j]);
        }
        lemma_trim_end_take(s.drop_last(), i);
        assert(s.drop_last().take(i) =~= s.take(i));
    } else {
        assert(s.take(i) =~= s);
    }
}

/// The characters of `s` without leading and trailing white space.
pub fn trim_chars(s: &[char]) -> (r: Vec<char>)
    ensures
        r@ == trim(s@),
{
    let mut i: usize = 0;
    while i < s.len() && is_whitespace(s[i])
        invariant
            i <= s.len(),
            forall|j: int| 0 <= j < i ==> is_ws(#[trigger] s@[j]),
        decreases s.len() - i,
    {
        i = i + 1;
    }
    proof {
        lemma_trim_start_skip(s@, i as int);
    }
    let mut e: usize = s.len();
    while e > i && is_whitespace(s[e - 1])
        invariant
            i <= e <= s.len(),
            forall|j: int| e <= j < s.len() ==> is_ws(#[trigger] s@[j]),
        decreases e,
    {
        e = e - 1;
    }
    let ghost mid = s@.skip(i as int);
    proof {
        assert forall|j: int| e - i <= j < mid.len() implies is_ws(#[trigger] mid[j]) by {
            assert(mid[j] == s@[j + i]);
        }
        lemma_trim_end_take(mid, e - i);
        let t = mid.take(e - i);
        if t.len() > 0 {
            assert(t.last() == s@[e - 1]);
        }
    }
    let mut r: Vec<char> = Vec::new();
    let mut k: usize = i;
    while k < e
        invariant
            i <= k <= e <= s.len(),
            r@ == s@.subrange(i as int, k as int),
        decreases e - k,
    {
        r.push(s[k]);
        assert(r@ =~= s@.subrange(i as int, k + 1));
        k = k + 1;
    }
    assert(r@ =~= mid.take(e - i));
    r
}

/// `s` without leading and trailing white space.
pub fn trim_str(s: &str) -> (r: String)
    ensures
        r@ == trim(s@),
{
    let cs = chars_of(s);
    let t = trim_chars(cs.as_slice());
    string_of(t.as_slice())
}

/// A text trimmed, where one is given.
pub open spec fn opt_trim(o: Option<Seq<char>>) -> Option<Seq<char>> {
    match o {
        Some(s) => Some(trim(s)),
        None => None,
    }
}

/// An optional text trimmed.
pub fn trim_option(o: &Option<String>) -> (r: Option<String>)
    ensures
        r.deep_view() == opt_trim(o.deep_view()),
{
    match o {
        Some(s) => Some(trim_str(s.as_str())),
        None => None,
    }
}


// ---------------------------------------------------------------------------
// Searching, splitting and replacing
// ---------------------------------------------------------------------------

/// `s` begins with `p`.
pub open spec fn starts_with(s: Seq<char>, p: Seq<char>) -> bool {
    p.len() <= s.len() && s.take(p.len() as int) == p
}

/// Whether `s` begins with `p`.
pub fn chars_start_with(s: &[char], p: &[char]) -> (r: bool)
    ensures
        r == starts_with(s@, p@),
{
    if p.len() > s.len() {
        return false;
    }
    let mut i: usize = 0;
    while i < p.len()
        invariant
            p.len() <= s.len(),
            i <= p.len(),
            forall|j: int| 0 <= j < i ==> s@[j] == p@[j],
        decreases p.len() - i,
    {
        if s[i] != p[i] {
            assert(s@.take(p.len() as int)[i as int] != p@[i as int]);
            return false;
        }
        i = i + 1;
    }
    assert(s@.take(p.len() as int) =~= p@);
    true
}

/// The first position of `c` in `s`, or -1.
pub open spec fn find_char(s: Seq<char>, c: char) -> int
    decreases s.len(),
{
    if s.len() == 0 {
        -1
    } else {
        let i = find_char(s.drop_last(), c);
        if i >= 0 {
            i
        } else if s.last() == c {
            s.len() - 1
        } else {
            -1
        }
    }
}

/// `find_char` gives the first occurrence, and -1 exactly when there is none.
pub proof fn lemma_find_char(s: Seq<char>, c: char)
    ensures
        -1 <= find_char(s, c) < s.len(),
        find_char(s, c) == -1 <==> !s.contains(c),
        find_char(s, c) >= 0 ==> s[find_char(s, c)] == c,
        find_char(s, c) >= 0 ==> forall|j: int| 0 <= j < find_char(s, c) ==> s[j] != c,
    decreases s.len(),
{
    if s.len() > 0 {
        lemma_find_char(s.drop_last(), c);
        assert forall|j: int| 0 <= j < s.len() - 1 implies s[j] == s.drop_last()[j] by {}
        if s.drop_last().contains(c) {
            let k = choose|k: int| 0 <= k < s.drop_last().len() && s.drop_last()[k] == c;
            assert(s[k] == c);
        }
        if s.contains(c) && find_char(s, c) == -1 {
            let k = choose|k: int| 0 <= k < s.len() && s[k] == c;
            if k < s.len() - 1 {
                assert(s.drop_last()[k] == c);
            }
        }
    }
}

/// The position of the first `c` in `s`, if any.
pub fn find_first(s: &[char], c: char) -> (r: Option<usize>)
    ensures
        match r {
            Some(i) => find_char(s@, c) == i,
            None => find_char(s@, c) == -1,
        },
{
    proof {
        lemma_find_char(s@, c);
    }
    let mut i: usize = 0;
    while i < s.len()
        invariant
            i <= s.len(),
            forall|j: int| 0 <= j < i ==> s@[j] != c,
        decreases s.len() - i,
    {
        if s[i] == c {
            proof {
                lemma_find_char(s@, c);
                let f = find_char(s@, c);
                if f >= 0 && f < i {
                    assert(s@[f] != c);
                }
                if f > i as int {
                    assert(s@[i as int] != c);
                }
                if f == -1 {
                    assert(s@.contains(c));
                }
            }
            return Some(i);
        }
        i = i + 1;
    }
    proof {
        lemma_find_char(s@, c);
        if s@.contains(c) {
            let k = choose|k: int| 0 <= k < s@.len() && s@[k] == c;
            assert(s@[k] != c);
        }
    }
    None
}

/// `s` cut at its first `c`, as `str::split_once` does it.
pub open spec fn split_once(s: Seq<char>, c: char) -> Option<(Seq<char>, Seq<char>)> {
    let i = find_char(s, c);
    if i < 0 {
        None
    } else {
        Some((s.take(i), s.skip(i + 1)))
    }
}

/// The parts of `s` before and after its first `c`, if it has one.
pub fn split_once_chars(s: &[char], c: char) -> (r: Option<(Vec<char>, Vec<char>)>)
    ensures
        match r {
            Some((a, b)) => split_once(s@, c) == Some((a@, b@)),
            None => split_once(s@, c).is_none(),
        },
{
    proof {
        lemma_find_char(s@, c);
    }
    match find_first(s, c) {
        None => None,
        Some(i) => {
            assert(i < s@.len());
            assert(i < s.len());
            let a = slice_chars(s, 0, i);
            let b = slice_chars(s, i + 1, s.len());
            assert(a@ =~= s@.take(i as int));
            assert(b@ =~= s@.skip(i + 1));
            Some((a, b))
        },
    }
}

/// The characters of `s` from position `from` up to `to`.
pub fn slice_chars(s: &[char], from: usize, to: usize) -> (r: Vec<char>)
    requires
        from <= to <= s.len(),
    ensures
        r@ == s@.subrange(from as int, to as int),
{
    let mut r: Vec<char> = Vec::new();
    let mut k: usize = from;
    while k < to
        invariant
            from <= k <= to <= s.len(),
            r@ == s@.subrange(from as int, k as int),
        decreases to - k,
    {
        r.push(s[k]);
        assert(r@ =~= s@.subrange(from as int, k + 1));
        k = k + 1;
    }
    r
}

/// The parts of `s` between the separators `c`, as `str::split` gives them.
pub open spec fn split_all(s: Seq<char>, c: char) -> Seq<Seq<char>>
    decreases s.len(),
{
    if s.len() == 0 {
        seq![Seq::empty()]
    } else {
        let prev = split_all(s.drop_last(), c);
        if s.last() == c {
            prev.push(Seq::empty())
        } else {
            prev.update(prev.len() - 1, prev.last().push(s.last()))
        }
    }
}

proof fn lemma_split_all_nonempty(s: Seq<char>, c: char)
    ensures
        split_all(s, c).len() >= 1,
    decreases s.len(),
{
    if s.len() > 0 {
        lemma_split_all_nonempty(s.drop_last(), c);
    }
}

/// The parts of `s` between the separators `c`.
pub fn split_chars(s: &[char], c: char) -> (r: Vec<Vec<char>>)
    ensures
        r.deep_view() == split_all(s@, c),
{
    let mut done: Vec<Vec<char>> = Vec::new();
    let mut cur: Vec<char> = Vec::new();
    let mut i: usize = 0;
    assert(s@.take(0) =~= Seq::<char>::empty());
    assert(cur.deep_view() =~= Seq::<char>::empty());
    assert(done.deep_view().push(cur.deep_view()) =~= seq![Seq::<char>::empty()]);
    while i < s.len()
        invariant
            i <= s.len(),
            done.deep_view().push(cur.deep_view()) == split_all(s@.take(i as int), c),
        decreases s.len() - i,
    {
        let ghost pre = s@.take(i as int);
        assert(s@.take(i + 1).drop_last() =~= pre);
        assert(s@.take(i + 1).last() == s@[i as int]);
        proof {
            lemma_split_all_nonempty(pre, c);
        }
        if s[i] == c {
            let ghost d = done.deep_view();
            let ghost cv = cur.deep_view();
            done.push(cur);
            cur = Vec::new();
            assert(done.deep_view() =~= d.push(cv));
            assert(cur.deep_view() =~= Seq::<char>::empty());
            assert(done.deep_view().push(cur.deep_view()) =~= d.push(cv).push(Seq::empty()));
        } else {
            let ghost d = done.deep_view();
            let ghost cv = cur.deep_view();
            cur.push(s[i]);
            assert(cur.deep_view() =~= cv.push(s@[i as int]));
            assert(d.push(cv).update(d.len() as int, cv.push(s@[i as int])) =~= d.push(cur.deep_view()));
        }
        i = i + 1;
    }
    assert(s@.take(s.len() as int) =~= s@);
    let ghost d = done.deep_view();
    let ghost cv = cur.deep_view();
    done.push(cur);
    assert(done.deep_view() =~= d.push(cv));
    done
}

/// `s` with every `c` replaced by `rep`.
pub open spec fn replace_char(s: Seq<char>, c: char, rep: Seq<char>) -> Seq<char>
    decreases s.len(),
{
    if s.len() == 0 {
        Seq::empty()
    } else if s.last() == c {
        replace_char(s.drop_last(), c, rep) + rep
    } else {
        replace_char(s.drop_last(), c, rep).push(s.last())
    }
}

/// The characters of `s` with every `c` replaced by `rep`.
pub fn replace_chars(s: &[char], c: char, rep: &[char]) -> (r: Vec<char>)
    ensures
        r@ == replace_char(s@, c, rep@),
{
    let mut r: Vec<char> = Vec::new();
    let mut i: usize = 0;
    assert(s@.take(0) =~= Seq::<char>::empty());
    while i < s.len()
        invariant
            i <= s.len(),
            r@ == replace_char(s@.take(i as int), c, rep@),
        decreases s.len() - i,
    {
        assert(s@.take(i + 1).drop_last() =~= s@.take(i as int));
        assert(s@.take(i + 1).last() == s@[i as int]);
        if s[i] == c {
            let ghost before = r@;
            let mut k: usize = 0;
            while k < rep.len()
                invariant
                    k <= rep.len(),
                    r@ == before + rep@.take(k as int),
                decreases rep.len() - k,
            {
                r.push(rep[k]);
                assert(r@ =~= before + rep@.take(k + 1));
                k = k + 1;
            }
            assert(rep@.take(rep.len() as int) =~= rep@);
        } else {
            r.push(s[i]);
        }
        i = i + 1;
    }
    assert(s@.take(s.len() as int) =~= s@);
    r
}

// ---------------------------------------------------------------------------
// Numbers as text
// ---------------------------------------------------------------------------

/// The decimal digit for `d`.
pub open spec fn digit_char(d: nat) -> char {
    if d < 10 {
        ((d + 48) as u8) as char
    } else {
        '?'
    }
}

/// `n` written in decimal, without leading zeros.
pub open spec fn decimal(n: nat) -> Seq<char>
    decreases n,
{
    if n < 10 {
        seq![digit_char(n)]
    } else {
        decimal(n / 10).push(digit_char(n % 10))
    }
}

fn digit(d: u64) -> (c: char)
    requires
        d < 10,
    ensures
        c == digit_char(d as nat),
{
    match d {
        0 => '0',
        1 => '1',
        2 => '2',
        3 => '3',
        4 => '4',
        5 => '5',
        6 => '6',
        7 => '7',
        8 => '8',
        _ => '9',
    }
}

/// The decimal digits of `n`.
pub fn decimal_chars(n: u64) -> (r: Vec<char>)
    ensures
        r@ == decimal(n as nat),
    decreases n,
{
    if n < 10 {
        let mut r = Vec::new();
        r.push(digit(n));
        assert(r@ =~= seq![digit_char(n as nat)]);
        r
    } else {
        let mut r = decimal_chars(n / 10);
        r.push(digit(n % 10));
        r
    }
}

/// `parts` joined by `sep`.
pub open spec fn join(parts: Seq<Seq<char>>, sep: Seq<char>) -> Seq<char>
    decreases parts.len(),
{
    if parts.len() == 0 {
        Seq::empty()
    } else if parts.len() == 1 {
        parts[0]
    } else {
        join(parts.drop_last(), sep) + sep + parts.last()
    }
}

/// The strings of `parts` joined by `sep`.
pub fn join_strings(parts: &Vec<String>, sep: &str) -> (r: String)
    ensures
        r@ == join(parts.deep_view(), sep@),
{
    let mut out: Vec<char> = Vec::new();
    let mut i: usize = 0;
    while i < parts.len()
        invariant
            i <= parts.len(),
            out@ == join(parts.deep_view().take(i as int), sep@),
        decreases parts.len() - i,
    {
        let ghost pre = parts.deep_view().take(i as int);
        assert(parts.deep_view().take(i + 1).drop_last() =~= pre);
        assert(parts.deep_view().take(i + 1).last() == parts[i as int]@);
        if i > 0 {
            let mut s = chars_of(sep);
            out.append(&mut s);
        }
        let mut p = chars_of(parts[i].as_str());
        out.append(&mut p);
        i = i + 1;
    }
    assert(parts.deep_view().take(parts.len() as int) =~= parts.deep_view());
    string_of(out.as_slice())
}

/// `n` in decimal, with a minus sign where negative.
pub open spec fn signed_decimal(n: int) -> Seq<char> {
    if n < 0 {
        seq!['-'] + decimal((-n) as nat)
    } else {
        decimal(n as nat)
    }
}

/// The decimal digits of `n`, after a minus sign where negative.
pub fn signed_decimal_chars(n: i64) -> (r: Vec<char>)
    ensures
        r@ == signed_decimal(n as int),
{
    if n < 0 {
        let mut out: Vec<char> = Vec::new();
        out.push('-');
        let mag: u64 = if n == i64::MIN { 9223372036854775808u64 } else { (-n) as u64 };
        let mut d = decimal_chars(mag);
        out.append(&mut d);
        out
    } else {
        decimal_chars(n as u64)
    }
}

/// The lowercase hexadecimal digit for `d`.
pub open spec fn hex_lower(d: nat) -> char {
    if d < 10 {
        ((d + 48) as u8) as char
    } else if d < 16 {
        ((d + 87) as u8) as char
    } else {
        '?'
    }
}

/// The uppercase hexadecimal digit for `d`.
pub open spec fn hex_upper(d: nat) -> char {
    if d < 10 {
        ((d + 48) as u8) as char
    } else if d < 16 {
        ((d + 55) as u8) as char
    } else {
        '?'
    }
}

/// The last `width` lowercase hexadecimal digits of `n`, zero-padded.
pub open spec fn hex_fixed(n: nat, width: nat) -> Seq<char>
    decreases width,
{
    if width == 0 {
        Seq::empty()
    } else {
        hex_fixed(n / 16, (width - 1) as nat).push(hex_lower(n % 16))
    }
}

/// The lowercase hexadecimal digit for `d`.
pub fn hex_digit_lower(d: u64) -> (c: char)
    requires
        d < 16,
    ensures
        c == hex_lower(d as nat),
{
    match d {
        0 => '0',
        1 => '1',
        2 => '2',
        3 => '3',
        4 => '4',
        5 => '5',
        6 => '6',
        7 => '7',
        8 => '8',
        9 => '9',
        10 => 'a',
        11 => 'b',
        12 => 'c',
        13 => 'd',
        14 => 'e',
        _ => 'f',
    }
}

/// The last `width` lowercase hexadecimal digits of `n`, zero-padded.
pub fn hex_fixed_chars(n: u128, width: usize) -> (r: Vec<char>)
    ensures
        r@ == hex_fixed(n as nat, width as nat),
    decreases width,
{
    if width == 0 {
        Vec::new()
    } else {
        let mut r = hex_fixed_chars(n / 16, width - 1);
        r.push(hex_digit_lower((n % 16) as u64));
        r
    }
}

} // verus!
