//! Serving the web front end: which files a request path may name, and the page shown
//! when the front end has not been built.

use vstd::prelude::*;
use crate::text::{chars_of, string_of, find_char, lemma_find_char, owned};

verus! {

/// A file of the front end and its media type.
#[derive(Debug)]
pub struct WebAsset {
    pub bytes: Vec<u8>,
    pub content_type: String,
}

/// What `percent_encoding::percent_decode_str(s).decode_utf8_lossy()` gives for a text.
pub uninterp spec fn percent_decode_lossy(s: Seq<char>) -> Seq<char>;

/// Decodes `%XX` escapes with `percent_encoding::percent_decode_str` and reads the bytes
/// as UTF-8 with `decode_utf8_lossy`, which puts U+FFFD for invalid sequences; the result
/// is named by `percent_decode_lossy`. A text without `%` holds no escape, so its bytes
/// come back as they were (the crate documents that it borrows the input then), and
/// valid UTF-8 reads back as the same text.
#[verifier::external_body]
fn percent_decode(s: &str) -> (r: String)
    ensures
        r@ == percent_decode_lossy(s@),
        !s@.contains('%') ==> r@ == s@,
{
    percent_encoding::percent_decode_str(s).decode_utf8_lossy().into_owned()
}

/// The media type that `mime_guess::from_path(path).first_or_octet_stream()` gives for
/// a path, by its extension.
pub uninterp spec fn guessed_mime(path: Seq<char>) -> Seq<char>;

/// Guesses a file's media type with `mime_guess` from the extension of the path (read
/// with `/` as separator, as on the Unix-like systems that serve the portal); a path
/// without a known extension gets `application/octet-stream`. The result is named by
/// `guessed_mime`.
#[verifier::external_body]
fn guess_content_type(path: &str) -> (r: String)
    ensures
        r@ == guessed_mime(path@),
{
    mime_guess::from_path(path).first_or_octet_stream().to_string()
}

/// A front-end file found under the candidate name `candidate`: its bytes, and the
/// media type guessed from that name.
pub fn found_asset(candidate: &str, bytes: Vec<u8>) -> (r: WebAsset)
    ensures
        r.bytes@ == bytes@,
        r.content_type@ == guessed_mime(candidate@),
{
    WebAsset { bytes, content_type: guess_content_type(candidate) }
}

/// `s` without its leading slashes.
pub open spec fn strip_slashes(s: Seq<char>) -> Seq<char>
    decreases s.len(),
{
    if s.len() > 0 && s[0] == '/' {
        strip_slashes(s.drop_first())
    } else {
        s
    }
}

/// `s` holds `..` somewhere.
pub open spec fn has_dotdot(s: Seq<char>) -> bool {
    exists|i: int| 0 <= i < s.len() - 1 && #[trigger] s[i] == '.' && s[i + 1] == '.'
}

/// A request path with its `%XX` escapes decoded; a path without `%` has none.
pub open spec fn decoded_path(path: Seq<char>) -> Seq<char> {
    if path.contains('%') {
        percent_decode_lossy(path)
    } else {
        path
    }
}

/// The file a request path names: the decoded path without leading slashes;
/// `index.html` where that is empty or climbs with `..`.
pub open spec fn normalize_path_spec(path: Seq<char>) -> Seq<char> {
    let clean = strip_slashes(decoded_path(path));
    if clean.len() == 0 || has_dotdot(clean) {
        "index.html"@
    } else {
        clean
    }
}

proof fn lemma_strip_slashes_skip(s: Seq<char>, i: int)
    requires
        0 <= i <= s.len(),
        forall|j: int| 0 <= j < i ==> #[trigger] s[j] == '/',
    ensures
        strip_slashes(s) == strip_slashes(s.skip(i)),
    decreases i,
{
    if i > 0 {
        assert forall|j: int| 0 <= j < i - 1 implies #[trigger] s.drop_first()[j] == '/' by {
            assert(s.drop_first()[j] == s[j + 1]);
        }
        lemma_strip_slashes_skip(s.drop_first(), i - 1);
        assert(s.drop_first().skip(i - 1) =~= s.skip(i));
    } else {
        assert(s.skip(0) =~= s);
    }
}

/// The file a request path names.
pub fn normalize_path(path: &str) -> (r: String)
    ensures
        r@ == normalize_path_spec(path@),
{
    let decoded = percent_decode(path);
    let cs = chars_of(decoded.as_str());
    let mut i: usize = 0;
    while i < cs.len() && cs[i] == '/'
        invariant
            i <= cs.len(),
            forall|j: int| 0 <= j < i ==> #[trigger] cs@[j] == '/',
        decreases cs.len() - i,
    {
        i = i + 1;
    }
    proof {
        lemma_strip_slashes_skip(cs@, i as int);
        assert(strip_slashes(cs@.skip(i as int)) == cs@.skip(i as int));
    }
    let clean = crate::text::slice_chars(cs.as_slice(), i, cs.len());
    assert(clean@ =~= cs@.skip(i as int));
    let mut dotdot = false;
    let mut k: usize = 0;
    while clean.len() > 0 && k < clean.len() - 1
        invariant
            k <= clean.len(),
            dotdot == exists|j: int| 0 <= j < k && j < clean@.len() - 1 && #[trigger] clean@[j] == '.' && clean@[j + 1] == '.',
        decreases clean.len() - k,
    {
        if clean[k] == '.' && clean[k + 1] == '.' {
            dotdot = true;
        }
        k = k + 1;
    }
    assert(dotdot == has_dotdot(clean@));
    if clean.len() == 0 || dotdot {
        owned("index.html")
    } else {
        string_of(clean.as_slice())
    }
}

/// The last segment of `s`: what follows its last `/`, or all of it.
pub open spec fn last_segment(s: Seq<char>) -> Seq<char>
    decreases s.len(),
{
    if s.len() == 0 {
        s
    } else if s.last() == '/' {
        Seq::empty()
    } else {
        last_segment(s.drop_last()).push(s.last())
    }
}

/// A path names a page rather than a file: it is not empty and its last segment has no dot.
pub open spec fn is_extensionless_spec(path: Seq<char>) -> bool {
    path.len() > 0 && !last_segment(path).contains('.')
}

/// Whether a path names a page rather than a file.
pub fn is_extensionless_route(path: &str) -> (r: bool)
    ensures
        r == is_extensionless_spec(path@),
{
    let cs = chars_of(path);
    if cs.len() == 0 {
        return false;
    }
    let mut seg: Vec<char> = Vec::new();
    let mut i: usize = 0;
    while i < cs.len()
        invariant
            i <= cs.len(),
            seg@ == last_segment(cs@.take(i as int)),
        decreases cs.len() - i,
    {
        assert(cs@.take(i + 1).drop_last() =~= cs@.take(i as int));
        assert(cs@.take(i + 1).last() == cs@[i as int]);
        if cs[i] == '/' {
            seg = Vec::new();
            assert(seg@ =~= Seq::<char>::empty());
        } else {
            seg.push(cs[i]);
        }
        i = i + 1;
    }
    assert(cs@.take(cs.len() as int) =~= cs@);
    !crate::text::has_char(seg.as_slice(), '.')
}

/// The files tried for a request path: the normalized path and, for a page, the path
/// with `.html` and the path's `index.html`.
pub open spec fn route_candidates_spec(path: Seq<char>) -> Seq<Seq<char>> {
    let n = normalize_path_spec(path);
    if is_extensionless_spec(n) {
        seq![n, n + ".html"@, n + "/index.html"@]
    } else {
        seq![n]
    }
}

/// A request path whose decoded form, without its leading slashes, is empty or climbs
/// with `..` is looked up as `index.html` alone, exactly as the root `/` is: no file
/// outside the front end is tried for it, and it is served what the root is served.
pub proof fn law_climbing_paths_serve_the_root(path: Seq<char>)
    requires
        strip_slashes(decoded_path(path)).len() == 0 || has_dotdot(strip_slashes(decoded_path(path))),
    ensures
        route_candidates_spec(path) == seq!["index.html"@],
        route_candidates_spec(path) == route_candidates_spec("/"@),
{
    reveal_strlit("/");
    let root = "/"@;
    assert(!root.contains('%')) by {
        assert(root.len() == 1 && root[0] == '/');
    }
    assert(decoded_path(root) == root);
    assert(root.drop_first() =~= Seq::<char>::empty());
    assert(strip_slashes(root) == strip_slashes(Seq::<char>::empty()));
    assert(strip_slashes(root).len() == 0);
    reveal_strlit("index.html");
    let n = "index.html"@;
    assert(normalize_path_spec(path) == n);
    reveal_with_fuel(last_segment, 11);
    assert(last_segment(n) =~= n);
    assert(n[5] == '.');
    assert(last_segment(n).contains('.'));
    assert(!is_extensionless_spec(n));
}

/// The files tried for a request path, in order.
pub fn route_candidates(path: &str) -> (r: Vec<String>)
    ensures
        r.deep_view() == route_candidates_spec(path@),
{
    let n = normalize_path(path);
    let mut r: Vec<String> = Vec::new();
    if is_extensionless_route(n.as_str()) {
        let a = crate::text::concat(n.as_str(), ".html");
        let b = crate::text::concat(n.as_str(), "/index.html");
        r.push(n);
        r.push(a);
        r.push(b);
    } else {
        r.push(n);
    }
    assert(r.deep_view() =~= route_candidates_spec(path@));
    r
}

/// The page shown while the front end has not been built.
pub open spec fn fallback_page() -> Seq<char> {
    "<!doctype html>
<html lang=\"zh-CN\">
  <head>
    <meta charset=\"utf-8\" />
    <meta name=\"viewport\" content=\"width=device-width, initial-scale=1\" />
    <title>Portal</title>
    <style>
      body { margin:0; min-height:100vh; display:grid; place-items:center; font-family:Inter,-apple-system,BlinkMacSystemFont,\"Segoe UI\",sans-serif; color:#1a1a1a; background:#faf9f7; }
      main { width:min(560px, calc(100vw - 48px)); border:1px solid rgba(0,0,0,.08); background:#fff; border-radius:12px; padding:28px; }
      h1 { margin:0 0 12px; font-size:20px; }
      p { margin:0 0 10px; line-height:1.6; color:#5a5a5a; }
      code { background:#f5f4f2; padding:2px 5px; border-radius:4px; }
    </style>
  </head>
  <body>
    <main>
      <h1>Portal Rust runtime is running</h1>
      <p>Web assets have not been exported yet. Build the UI into <code>apps/web/out</code> or set <code>PORTAL_WEB_DIR</code>.</p>
    </main>
  </body>
</html>"@
}

/// The page shown while the front end has not been built, as UTF-8 HTML.
pub fn fallback_html() -> (r: WebAsset)
    ensures
        r.bytes@ == vstd::utf8::encode_utf8(fallback_page()),
        r.content_type@ == "text/html; charset=utf-8"@,
{
    let html = "<!doctype html>
<html lang=\"zh-CN\">
  <head>
    <meta charset=\"utf-8\" />
    <meta name=\"viewport\" content=\"width=device-width, initial-scale=1\" />
    <title>Portal</title>
    <style>
      body { margin:0; min-height:100vh; display:grid; place-items:center; font-family:Inter,-apple-system,BlinkMacSystemFont,\"Segoe UI\",sans-serif; color:#1a1a1a; background:#faf9f7; }
      main { width:min(560px, calc(100vw - 48px)); border:1px solid rgba(0,0,0,.08); background:#fff; border-radius:12px; padding:28px; }
      h1 { margin:0 0 12px; font-size:20px; }
      p { margin:0 0 10px; line-height:1.6; color:#5a5a5a; }
      code { background:#f5f4f2; padding:2px 5px; border-radius:4px; }
    </style>
  </head>
  <body>
    <main>
      <h1>Portal Rust runtime is running</h1>
      <p>Web assets have not been exported yet. Build the UI into <code>apps/web/out</code> or set <code>PORTAL_WEB_DIR</code>.</p>
    </main>
  </body>
</html>";
    let bytes = vstd::slice::slice_to_vec(html.as_bytes());
    WebAsset { bytes, content_type: owned("text/html; charset=utf-8") }
}

} // verus!
