//! Record identifiers: UUIDs held as their 128 bits, read from and written as text.

use vstd::prelude::*;
use crate::model::Id;
use crate::text::{hex_fixed, hex_fixed_chars, string_of};

verus! {

/// The `uuid` crate's parse error.
#[verifier::external_type_specification]
#[verifier::external_body]
pub struct ExUuidError(uuid::Error);

/// The identifier that `uuid::Uuid`'s `FromStr` reads from a text, if it reads one.
pub uninterp spec fn uuid_parse(s: Seq<char>) -> Option<u128>;

/// Reads a UUID with `str::parse::<uuid::Uuid>()` (simple, hyphenated, URN or braced
/// form) and gives its 128 bits (`Uuid::as_u128`). The result is named by `uuid_parse`;
/// which texts are accepted is left to the `uuid` crate, except that the hyphenated
/// lowercase form in which `Uuid` displays itself reads back as the same 128 bits.
#[verifier::external_body]
fn uuid_from_str(s: &str) -> (r: Result<u128, uuid::Error>)
    ensures
        r is Ok <==> uuid_parse(s@) is Some,
        r matches Ok(v) ==> uuid_parse(s@) == Some(v),
        (exists|n: u128| s@ == #[trigger] id_text_spec(n)) ==> r is Ok,
        r matches Ok(v) ==> forall|n: u128| s@ == #[trigger] id_text_spec(n) ==> v == n,
{
    match s.parse::<uuid::Uuid>() {
        Ok(u) => Ok(u.as_u128()),
        Err(e) => Err(e),
    }
}

/// The identifier written in `s`, if `s` is a UUID.
pub fn parse_id(s: &str) -> (r: Option<Id>)
    ensures
        r == uuid_parse(s@),
        forall|n: Id| s@ == #[trigger] id_text_spec(n) ==> r == Some(n),
{
    match uuid_from_str(s) {
        Ok(v) => Some(v),
        Err(_) => None,
    }
}

/// The hyphenated lowercase form `xxxxxxxx-xxxx-xxxx-xxxx-xxxxxxxxxxxx` of an identifier,
/// as `uuid::Uuid` displays it.
pub open spec fn id_text_spec(id: Id) -> Seq<char> {
    let h = hex_fixed(id as nat, 32);
    h.subrange(0, 8) + seq!['-'] + h.subrange(8, 12) + seq!['-'] + h.subrange(12, 16) + seq!['-']
        + h.subrange(16, 20) + seq!['-'] + h.subrange(20, 32)
}

/// `hex_fixed(n, w)` has `w` digits.
pub proof fn lemma_hex_fixed_len(n: nat, w: nat)
    ensures
        hex_fixed(n, w).len() == w,
    decreases w,
{
    if w > 0 {
        lemma_hex_fixed_len(n / 16, (w - 1) as nat);
    }
}

/// The hyphenated lowercase form of an identifier.
pub fn id_text(id: Id) -> (r: String)
    ensures
        r@ == id_text_spec(id),
{
    let h = hex_fixed_chars(id, 32);
    proof {
        lemma_hex_fixed_len(id as nat, 32);
    }
    let mut out: Vec<char> = Vec::new();
    let mut i: usize = 0;
    while i < 32
        invariant
            i <= 32,
            h@.len() == 32,
            out@ == id_text_prefix(h@, i as int),
        decreases 32 - i,
    {
        if i == 8 || i == 12 || i == 16 || i == 20 {
            out.push('-');
        }
        out.push(h[i]);
        i = i + 1;
    }
    proof {
        reveal_with_fuel(id_text_prefix, 33);
        assert(out@ =~= id_text_spec(id));
    }
    string_of(out.as_slice())
}

/// The first `i` digits of `h`, with the hyphens that precede them.
spec fn id_text_prefix(h: Seq<char>, i: int) -> Seq<char>
    decreases i,
{
    if i <= 0 {
        Seq::empty()
    } else if i - 1 == 8 || i - 1 == 12 || i - 1 == 16 || i - 1 == 20 {
        id_text_prefix(h, i - 1).push('-').push(h[i - 1])
    } else {
        id_text_prefix(h, i - 1).push(h[i - 1])
    }
}

} // verus!
