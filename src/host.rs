//! What the virtual machine needs from its host: the time, a fresh
//! identifier, the number of processors, text decoding and appending.
use vstd::prelude::*;

use vstd::utf8::{decode_utf8, valid_utf8};

verus! {

/// Relies on chrono's `Utc::now`: the current time, in milliseconds since
/// the Unix epoch. Nothing is promised of its value.
#[verifier::external_body]
pub fn now_millis() -> (r: i64) {
    chrono::Utc::now().timestamp_millis()
}

/// Relies on uuid's `Uuid::new_v4` read back with `as_u128`: a random
/// identifier whose version field is 4 and whose variant bits are `10`.
#[verifier::external_body]
pub fn new_id() -> (r: u128)
    ensures
        (r >> 76u128) & 0xfu128 == 4,
        (r >> 62u128) & 0x3u128 == 2,
{
    uuid::Uuid::new_v4().as_u128()
}

/// Relies on `num_cpus::get`: the number of logical processors this
/// process may use. Nothing is promised of its value.
#[verifier::external_body]
pub fn logical_core_count() -> (r: usize) {
    num_cpus::get()
}

/// Relies on `String::from_utf8`, which accepts exactly the valid UTF-8
/// byte sequences and decodes them.
#[verifier::external_body]
pub fn decode_text(b: &[u8]) -> (r: Option<String>)
    ensures
        r is Some <==> valid_utf8(b@),
        r matches Some(s) ==> s@ == decode_utf8(b@),
{
    String::from_utf8(b.to_vec()).ok()
}

/// Relies on `String::push_str`, which appends the characters of `t`.
#[verifier::external_body]
pub fn append_text(s: &mut String, t: &str)
    ensures
        final(s)@ == old(s)@ + t@,
{
    s.push_str(t)
}

} // verus!
