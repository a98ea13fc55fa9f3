//! Headers: what a header map holds, which names and values are valid, and
//! the header-map operations the client performs.

use vstd::prelude::*;
use vstd::string::*;

verus! {

broadcast use {vstd::seq::group_seq_axioms, vstd::seq_lib::group_seq_properties};

/// The (name, value) pairs of a header map, in the order the map iterates
/// them: one pair per value, with the values of one name next to each other.
pub uninterp spec fn header_map_entries(map: http::HeaderMap) -> Seq<(Seq<u8>, Seq<u8>)>;

/// A byte that may appear in a header value: visible ASCII, space, tab, or any byte from 128 up.
pub open spec fn header_value_byte(b: u8) -> bool {
    (b >= 32 && b != 127) || b == 9
}

/// Bytes that form a valid header value.
pub open spec fn valid_header_value(s: Seq<u8>) -> bool {
    forall|i: int| 0 <= i < s.len() ==> header_value_byte(#[trigger] s[i])
}

/// How a byte of a header name is normalized: token characters map to
/// themselves, upper-case letters to lower case, and every other byte to 0.
pub open spec fn header_char(b: u8) -> u8 {
    if 65 <= b <= 90 {
        (b + 32) as u8
    } else if b == 33 || 35 <= b <= 39 || b == 42 || b == 43 || b == 45 || b == 46 || 48 <= b
        <= 57 || 94 <= b <= 122 || b == 124 || b == 126 {
        b
    } else {
        0
    }
}

/// Bytes that form a valid header name once normalized.
pub open spec fn valid_header_name(s: Seq<u8>) -> bool {
    &&& 0 < s.len() <= 65535
    &&& forall|i: int| 0 <= i < s.len() ==> header_char(#[trigger] s[i]) != 0
}

/// The normalized (lower-case) form of a header name.
pub open spec fn normalize_header_name(s: Seq<u8>) -> Seq<u8> {
    s.map_values(|b: u8| header_char(b))
}

/// A header name that is valid and already normalized.
pub open spec fn normalized_header_name(s: Seq<u8>) -> bool {
    valid_header_name(s) && normalize_header_name(s) == s
}

/// The views of a sequence of header pairs.
pub open spec fn header_pairs_view(s: Seq<(Vec<u8>, Vec<u8>)>) -> Seq<(Seq<u8>, Seq<u8>)> {
    s.map_values(|p: (Vec<u8>, Vec<u8>)| (p.0@, p.1@))
}

/// Whether some pair carries the name `name`.
pub open spec fn has_header_name(entries: Seq<(Seq<u8>, Seq<u8>)>, name: Seq<u8>) -> bool {
    exists|j: int| 0 <= j < entries.len() && #[trigger] entries[j].0 == name
}

/// The value of the first pair that carries the name `name`.
pub open spec fn first_header_value(entries: Seq<(Seq<u8>, Seq<u8>)>, name: Seq<u8>) -> Option<
    Seq<u8>,
>
    decreases entries.len(),
{
    if entries.len() == 0 {
        None
    } else if entries[0].0 == name {
        Some(entries[0].1)
    } else {
        first_header_value(entries.drop_first(), name)
    }
}

/// A header map that holds fewer pairs than this always has room for a new
/// name: its table, at most 2^15 slots, grows or is rebuilt before it refuses
/// one, and it refuses only once one name per five slots of the largest table
/// is taken.
pub const HEADER_MAP_ROOM: usize = 6554;

/// `HeaderMap::new`: a map with no headers.
#[verifier::external_body]
pub(crate) fn header_map_new() -> (m: http::HeaderMap)
    ensures
        header_map_entries(m) == Seq::<(Seq<u8>, Seq<u8>)>::empty(),
{
    http::HeaderMap::new()
}

/// `HeaderMap::clone`: a map with the same pairs in the same order.
#[verifier::external_body]
pub(crate) fn header_map_clone(m: &http::HeaderMap) -> (r: http::HeaderMap)
    ensures
        header_map_entries(r) == header_map_entries(*m),
{
    m.clone()
}

/// `HeaderMap::iter`: every (name, value) pair, names as the bytes of `HeaderName::as_str`.
#[verifier::external_body]
pub(crate) fn header_map_iter(m: &http::HeaderMap) -> (r: Vec<(Vec<u8>, Vec<u8>)>)
    ensures
        header_pairs_view(r@) == header_map_entries(*m),
{
    m.iter().map(|(n, v)| (n.as_str().as_bytes().to_vec(), v.as_bytes().to_vec())).collect()
}

/// `HeaderMap::contains_key` with a normalized name given as a string.
#[verifier::external_body]
pub(crate) fn header_map_contains_key(m: &http::HeaderMap, name: &str) -> (b: bool)
    requires
        normalized_header_name(name.spec_bytes()),
    ensures
        b == has_header_name(header_map_entries(*m), name.spec_bytes()),
{
    m.contains_key(name)
}

/// `HeaderMap::contains_key` with the name of the `index`-th pair of `src`.
#[verifier::external_body]
pub(crate) fn header_map_contains_key_of(m: &http::HeaderMap, src: &http::HeaderMap, index: usize) -> (b: bool)
    requires
        index < header_map_entries(*src).len(),
    ensures
        b == has_header_name(header_map_entries(*m), header_map_entries(*src)[index as int].0),
{
    m.contains_key(src.iter().nth(index).unwrap().0)
}

/// `HeaderMap::try_insert` of the `index`-th pair of `src`, under a name the
/// map does not hold: on success the pair is added after all others; when the
/// map is full nothing changes. A map with fewer than [`HEADER_MAP_ROOM`]
/// pairs is never full.
#[verifier::external_body]
pub(crate) fn header_map_try_insert_from(dst: &mut http::HeaderMap, src: &http::HeaderMap, index: usize) -> (ok: bool)
    requires
        index < header_map_entries(*src).len(),
        !has_header_name(header_map_entries(*old(dst)), header_map_entries(*src)[index as int].0),
    ensures
        ok ==> header_map_entries(*final(dst)) == header_map_entries(*old(dst)).push(
            header_map_entries(*src)[index as int],
        ),
        !ok ==> header_map_entries(*final(dst)) == header_map_entries(*old(dst)),
        header_map_entries(*old(dst)).len() < HEADER_MAP_ROOM ==> ok,
{
    let (n, v) = src.iter().nth(index).unwrap();
    dst.try_insert(n.clone(), v.clone()).is_ok()
}

/// `HeaderMap::try_insert` of a normalized name and a valid value, under a name
/// the map does not hold: on success the pair is added after all others; when
/// the map is full nothing changes. A map with fewer than [`HEADER_MAP_ROOM`]
/// pairs is never full.
#[verifier::external_body]
pub(crate) fn header_map_try_insert(dst: &mut http::HeaderMap, name: &str, value: &[u8]) -> (ok: bool)
    requires
        normalized_header_name(name.spec_bytes()),
        valid_header_value(value@),
        !has_header_name(header_map_entries(*old(dst)), name.spec_bytes()),
    ensures
        ok ==> header_map_entries(*final(dst)) == header_map_entries(*old(dst)).push(
            (name.spec_bytes(), value@),
        ),
        !ok ==> header_map_entries(*final(dst)) == header_map_entries(*old(dst)),
        header_map_entries(*old(dst)).len() < HEADER_MAP_ROOM ==> ok,
{
    let name = http::HeaderName::from_bytes(name.as_bytes()).unwrap();
    let value = http::HeaderValue::from_bytes(value).unwrap();
    dst.try_insert(name, value).is_ok()
}

/// `HeaderMap::get` with a normalized name: the first value under that name.
#[verifier::external_body]
pub(crate) fn header_map_get(m: &http::HeaderMap, name: &str) -> (r: Option<Vec<u8>>)
    requires
        normalized_header_name(name.spec_bytes()),
    ensures
        r matches Some(v) ==> first_header_value(header_map_entries(*m), name.spec_bytes()) == Some(v@),
        r is None ==> first_header_value(header_map_entries(*m), name.spec_bytes()) is None,
{
    m.get(name).map(|v| v.as_bytes().to_vec())
}

/// `HeaderValue::from_str`: accepted exactly when every byte may appear in a
/// header value; the value holds the string's bytes.
#[verifier::external_body]
pub(crate) fn header_value_from_str(s: &str) -> (r: Result<Vec<u8>, http::header::InvalidHeaderValue>)
    ensures
        r is Ok <==> valid_header_value(s.spec_bytes()),
        r matches Ok(b) ==> b@ == s.spec_bytes(),
{
    http::HeaderValue::from_str(s).map(|v| v.as_bytes().to_vec())
}

/// `HeaderName::from_bytes`: accepted exactly when the bytes form a valid
/// name; the name is their normalized form. The error converts into `http::Error`.
#[verifier::external_body]
pub(crate) fn header_name_from_bytes(b: &[u8]) -> (r: Result<Vec<u8>, http::Error>)
    ensures
        r is Ok <==> valid_header_name(b@),
        r matches Ok(n) ==> n@ == normalize_header_name(b@),
{
    http::HeaderName::from_bytes(b).map(|n| n.as_str().as_bytes().to_vec()).map_err(http::Error::from)
}

} // verus!
