use vstd::prelude::*;
use vstd::utf8::{decode_utf8, valid_utf8};
use std::str::Utf8Error;

verus! {

#[verifier::external_type_specification]
#[verifier::external_body]
pub struct ExUtf8Error(std::str::Utf8Error);

/// Relies on std::str::from_utf8: it succeeds exactly on valid UTF-8, and
/// then yields the characters that the bytes encode.
#[verifier::external_body]
fn decode_text(bytes: &[u8]) -> (r: Result<&str, Utf8Error>)
    ensures
        match r {
            Ok(s) => valid_utf8(bytes@) && s@ == decode_utf8(bytes@),
            Err(_) => !valid_utf8(bytes@),
        },
{
    std::str::from_utf8(bytes)
}

/// The characters of `s` without its null characters.
pub open spec fn strip_nul_spec(s: Seq<char>) -> Seq<char> {
    s.filter(|c: char| c != '\0')
}

/// Relies on str::replace: with a char pattern and an empty replacement it
/// removes every occurrence of that char and keeps the rest in order.
#[verifier::external_body]
fn remove_nul(s: &str) -> (r: String)
    ensures
        r@ == strip_nul_spec(s@),
{
    s.replace('\0', "")
}

/// Extracts string from byte array, removing \0 symbols
pub fn extract_str(bytes: &[u8]) -> (r: Result<String, Utf8Error>)
    ensures
        match r {
            Ok(s) => valid_utf8(bytes@) && s@ == strip_nul_spec(decode_utf8(bytes@)),
            Err(_) => !valid_utf8(bytes@),
        },
{
    match decode_text(bytes) {
        Ok(s) => Ok(remove_nul(s)),
        Err(e) => Err(e),
    }
}

/// The buffer of a feature-report request: the report id, then `length`
/// zero bytes for the device to fill.
pub open spec fn feature_report_request_spec(report_id: u8, length: nat) -> Seq<u8> {
    seq![report_id] + Seq::new(length, |_i: int| 0u8)
}

/// Builds the buffer of a feature-report request, the report id first.
pub fn feature_report_request(report_id: u8, length: usize) -> (r: Vec<u8>)
    requires
        length < usize::MAX,
    ensures
        r@ == feature_report_request_spec(report_id, length as nat),
{
    let mut buf: Vec<u8> = Vec::new();
    buf.push(report_id);
    let mut i: usize = 0;
    while i < length
        invariant
            i <= length,
            buf@ == feature_report_request_spec(report_id, i as nat),
        decreases length - i,
    {
        buf.push(0u8);
        i += 1;
        assert(buf@ =~= feature_report_request_spec(report_id, i as nat));
    }
    buf
}

} // verus!
