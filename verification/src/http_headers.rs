//! What this library uses of the `http` crate: header values, header maps and
//! request extensions, each behind a trusted item.

use vstd::prelude::*;
use vstd::utf8::encode_utf8;

verus! {

/// `http::HeaderValue`, carried through verified code as an opaque value.
#[verifier::external_type_specification]
#[verifier::external_body]
pub struct ExHeaderValue(http::HeaderValue);

/// `http::header::InvalidHeaderValue`, the error of `HeaderValue::from_str`.
#[verifier::external_type_specification]
#[verifier::external_body]
pub struct ExInvalidHeaderValue(http::header::InvalidHeaderValue);

/// `http::HeaderMap`, a multimap from header names to values.
#[verifier::external_type_specification]
#[verifier::external_body]
#[verifier::reject_recursive_types(T)]
pub struct ExHeaderMap<T>(http::HeaderMap<T>);

/// `http::Extensions`, a type map of request extensions.
#[verifier::external_type_specification]
#[verifier::external_body]
pub struct ExExtensions(http::Extensions);

/// The bytes that a header value holds (what `HeaderValue::as_bytes` gives).
pub uninterp spec fn header_value_bytes(v: http::HeaderValue) -> Seq<u8>;

/// Whether a header value is marked sensitive (what `HeaderValue::is_sensitive` gives).
pub uninterp spec fn header_value_is_sensitive(v: http::HeaderValue) -> bool;

/// What a header map holds: for each header name, the values stored under it,
/// in order, each as its bytes and its sensitivity flag.
pub uninterp spec fn header_entries(m: http::HeaderMap) -> Map<Seq<char>, Seq<(Seq<u8>, bool)>>;

/// A byte that `http` accepts in a header value: visible ASCII, any byte from
/// 128 up, and horizontal tab; not the other control bytes nor DEL.
pub open spec fn is_valid_header_value_byte(b: u8) -> bool {
    (b >= 32 && b != 127) || b == 9
}

/// A string whose UTF-8 encoding is a valid header value.
pub open spec fn is_valid_header_value(s: Seq<char>) -> bool {
    forall|i: int|
        0 <= i < encode_utf8(s).len() ==> #[trigger] is_valid_header_value_byte(encode_utf8(s)[i])
}

/// A header name that `http` accepts from a static string without
/// panicking and stores unchanged: non-empty, short, and made of lower-case
/// letters, digits and hyphens.
pub open spec fn is_plain_header_name(s: Seq<char>) -> bool {
    &&& 0 < s.len() <= 64
    &&& forall|i: int|
        0 <= i < s.len() ==> {
            let c = #[trigger] s[i];
            ('a' <= c && c <= 'z') || ('0' <= c && c <= '9') || c == '-'
        }
}

/// A header map's contents with no header at all.
pub open spec fn no_headers() -> Map<Seq<char>, Seq<(Seq<u8>, bool)>> {
    Map::empty()
}

/// The view of a header entry that a value gives.
pub open spec fn header_entry(v: http::HeaderValue) -> (Seq<u8>, bool) {
    (header_value_bytes(v), header_value_is_sensitive(v))
}

/// Calls `HeaderValue::from_str`. It succeeds exactly when every byte of the
/// string's UTF-8 encoding is a valid header value byte; the new value holds
/// those bytes and is not sensitive.
#[verifier::external_body]
pub fn header_value_from_str(s: &str) -> (r: Result<http::HeaderValue, http::header::InvalidHeaderValue>)
    ensures
        r is Ok <==> is_valid_header_value(s@),
        r is Ok ==> header_value_bytes(r->Ok_0) == encode_utf8(s@),
        r is Ok ==> !header_value_is_sensitive(r->Ok_0),
{
    http::HeaderValue::from_str(s)
}

/// Calls `HeaderValue::set_sensitive`: the flag takes the given value, the
/// bytes stay as they were.
#[verifier::external_body]
pub fn header_value_set_sensitive(v: &mut http::HeaderValue, sensitive: bool)
    ensures
        header_value_bytes(*final(v)) == header_value_bytes(*old(v)),
        header_value_is_sensitive(*final(v)) == sensitive,
{
    v.set_sensitive(sensitive)
}

/// Calls `HeaderMap::new`: the new map holds no header.
#[verifier::external_body]
pub fn header_map_new() -> (m: http::HeaderMap)
    ensures
        header_entries(m) == no_headers(),
{
    http::HeaderMap::new()
}

/// Calls `HeaderMap::insert` with a static header name: every value stored
/// under that name is replaced by the one given; the other names keep theirs.
/// The value it hands back (a previous value) is dropped.
#[verifier::external_body]
pub fn header_map_insert(m: &mut http::HeaderMap, name: &'static str, v: http::HeaderValue)
    requires
        is_plain_header_name(name@),
        header_entries(*old(m)).dom().len() < 1024,
    ensures
        header_entries(*final(m)) == header_entries(*old(m)).insert(name@, seq![header_entry(v)]),
{
    m.insert(name, v);
}

} // verus!
