//! Calls into other crates.
//!
//! Everything in this module is believed, not proved: each function here
//! calls into another crate and states what is assumed of the outcome. The
//! rest of the crate is verified against these statements.

use vstd::prelude::*;

verus! {

/// The bit pattern of the double that `serde_json` finds under `key` at the
/// top level of the JSON document `text`. `None` where `text` is no JSON
/// document, is not an object, has no such key, or holds no number there.
pub uninterp spec fn json_number_field(text: Seq<char>, key: Seq<char>) -> Option<u64>;

/// `s` written as a JSON string literal by `serde_json`, quotes included.
pub uninterp spec fn json_string_literal(s: Seq<char>) -> Seq<char>;

/// Parses `text` with `serde_json::from_str`, looks `key` up with
/// `Value::get`, reads the number with `Value::as_f64` and hands on the bits
/// of the double. Assumed: the outcome depends on the two texts alone.
#[verifier::external_body]
pub(crate) fn number_field_bits(text: &str, key: &str) -> (r: Option<u64>)
    ensures
        r == json_number_field(text@, key@),
{
    let document: serde_json::Value = serde_json::from_str(text).ok()?;
    let number = document.get(key)?.as_f64()?;
    Some(number.to_bits())
}

/// Makes a `serde_json::Value` of the text and writes it with the `Display`
/// of `Value`. Assumed: the outcome depends on the text alone.
#[verifier::external_body]
pub(crate) fn string_literal(s: &str) -> (r: String)
    ensures
        r@ == json_string_literal(s@),
{
    serde_json::Value::from(s).to_string()
}

/// Whether `url::Url::parse` accepts `s` as an absolute URL.
pub uninterp spec fn url_parses(s: Seq<char>) -> bool;

/// Calls `url::Url::parse`. Assumed: the outcome depends on the text alone.
#[verifier::external_body]
pub(crate) fn is_absolute_url(s: &str) -> (r: bool)
    ensures
        r == url_parses(s@),
{
    url::Url::parse(s).is_ok()
}

/// Calls `rand::random`, which draws from the generator of the calling
/// thread. Nothing is assumed of the number drawn.
#[verifier::external_body]
pub(crate) fn random_sample() -> u64 {
    rand::random::<u64>()
}

/// The HTTP client of `reqwest`. Nothing is assumed of what it holds.
#[verifier::external_type_specification]
#[verifier::external_body]
pub struct ExClient(reqwest::Client);

/// Calls `reqwest::Client::builder` and, on the builder, its methods
/// `pool_max_idle_per_host`, `tcp_nodelay`, `timeout` and `build`. Building
/// fails where `reqwest` cannot set the client up on this machine; nothing
/// is assumed of when that is.
#[verifier::external_body]
pub(crate) fn build_http_client(max_idle_per_host: usize, nodelay: bool, timeout_ms: u64) -> Option<
    reqwest::Client,
> {
    reqwest::Client::builder()
        .pool_max_idle_per_host(max_idle_per_host)
        .tcp_nodelay(nodelay)
        .timeout(std::time::Duration::from_millis(timeout_ms))
        .build()
        .ok()
}

} // verus!
