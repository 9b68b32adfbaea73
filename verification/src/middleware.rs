//! Request tagging and which requests leave an audit record.

use vstd::prelude::*;
use crate::text::{chars_of, string_of, chars_start_with, starts_with, text_eq, hex_fixed, hex_fixed_chars, owned};

verus! {

/// The id under which a request is traced.
#[derive(Clone, Debug)]
pub struct RequestId(pub String);

/// A random 64-bit number from `rand::thread_rng`.
#[verifier::external_body]
fn random_u64() -> (r: u64) {
    rand::Rng::gen::<u64>(&mut rand::thread_rng())
}

/// A fresh request id: `req_` and a random 64-bit number in 16 lowercase hexadecimal digits.
pub fn generate_request_id() -> (r: String)
    ensures
        exists|n: u64| r@ == "req_"@ + hex_fixed(n as nat, 16),
{
    let n = random_u64();
    let mut out = chars_of("req_");
    let mut h = hex_fixed_chars(n as u128, 16);
    out.append(&mut h);
    let r = string_of(out.as_slice());
    assert(r@ == "req_"@ + hex_fixed(n as nat, 16));
    r
}

/// The id of a request: the one that the client sent in `x-request-id`, else a fresh one.
pub fn request_id_for(incoming: Option<String>) -> (r: String)
    ensures
        incoming is Some ==> r@ == incoming->0@,
        incoming is None ==> exists|n: u64| r@ == "req_"@ + hex_fixed(n as nat, 16),
{
    match incoming {
        Some(id) => id,
        None => generate_request_id(),
    }
}

/// A request leaves an audit record when it changes something (`POST`, `PUT`, `PATCH`,
/// `DELETE`) and is not a health or readiness probe.
pub open spec fn should_audit_spec(method: Seq<char>, path: Seq<char>) -> bool {
    !(starts_with(path, "/api/health"@) || starts_with(path, "/api/ready"@))
        && (method == "POST"@ || method == "PUT"@ || method == "PATCH"@ || method == "DELETE"@)
}

/// Whether a request leaves an audit record.
pub fn should_audit(method: &str, path: &str) -> (r: bool)
    ensures
        r == should_audit_spec(method@, path@),
{
    let p = chars_of(path);
    let health = chars_of("/api/health");
    let ready = chars_of("/api/ready");
    if chars_start_with(p.as_slice(), health.as_slice()) || chars_start_with(p.as_slice(), ready.as_slice()) {
        return false;
    }
    text_eq(method, "POST") || text_eq(method, "PUT") || text_eq(method, "PATCH") || text_eq(method, "DELETE")
}

/// The result recorded for a response: a failure for client and server errors
/// (statuses 400 to 599), a success otherwise.
pub fn audit_result(status: u16) -> (r: &'static str)
    ensures
        r@ == (if 400 <= status <= 599 { "failure"@ } else { "success"@ }),
{
    if 400 <= status && status <= 599 {
        "failure"
    } else {
        "success"
    }
}

/// The action recorded for an audited request: its method and path.
pub fn audit_action(method: &str, path: &str) -> (r: String)
    ensures
        r@ == method@ + seq![' '] + path@,
{
    let mut out = chars_of(method);
    out.push(' ');
    let mut p = chars_of(path);
    out.append(&mut p);
    string_of(out.as_slice())
}

} // verus!
