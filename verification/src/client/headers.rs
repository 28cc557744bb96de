//! Headers sent with every request, held in an `http::HeaderMap`.

use reqwest::header::{HeaderMap, HeaderName, HeaderValue};
use vstd::prelude::*;

use crate::credentials::header_value_bytes;

verus! {

#[verifier::external_type_specification]
#[verifier::external_body]
#[verifier::reject_recursive_types(T)]
pub struct ExHeaderMap<T>(HeaderMap<T>);

#[verifier::external_type_specification]
#[verifier::external_body]
pub struct ExHeaderName(HeaderName);

/// The lower-case text of a header name, as `HeaderName::as_str` gives it.
pub uninterp spec fn header_name_text(name: HeaderName) -> Seq<char>;

/// What a header map holds: for each header name, its values in order, as bytes.
pub uninterp spec fn header_entries(map: HeaderMap) -> Map<Seq<char>, Seq<Seq<u8>>>;

/// The number of distinct names a header map can hold before an insertion may overflow
/// its table and panic. In the `http` crate's source the table refuses to grow past
/// `MAX_SIZE` (2^15) slots, which with its load factor of 1/5 for a degraded table happens
/// only once it holds more than 6553 names.
pub open spec fn header_names_limit() -> nat {
    6553
}

/// Calls `HeaderMap::new`: an empty map.
#[verifier::external_body]
pub fn empty_headers() -> (r: HeaderMap)
    ensures
        header_entries(r).dom() == Set::<Seq<char>>::empty(),
{
    HeaderMap::new()
}

/// Calls `HeaderMap::keys_len`: the number of distinct names in the map. That a map holds
/// finitely many names, as its `Vec` of entries does, is left unsaid.
#[verifier::external_body]
pub fn header_names_len(map: &HeaderMap) -> (r: usize)
    ensures
        r == header_entries(*map).dom().len(),
{
    map.keys_len()
}

/// Calls `HeaderMap::insert`, which in the `http` crate's source associates the name with
/// this one value and removes all values it had before.
#[verifier::external_body]
pub fn insert_header(map: &mut HeaderMap, name: HeaderName, value: HeaderValue)
    requires
        header_entries(*old(map)).dom().len() <= header_names_limit(),
    ensures
        header_entries(*final(map)) == header_entries(*old(map)).insert(
            header_name_text(name),
            seq![header_value_bytes(value)],
        ),
{
    map.insert(name, value);
}

/// Calls `HeaderMap::extend` with another map, which in the `http` crate's source replaces,
/// for every name of the other map, all earlier values by that map's values for the name.
/// The map then holds the names of both maps, and before each new name it holds fewer.
#[verifier::external_body]
pub fn extend_headers(map: &mut HeaderMap, other: HeaderMap)
    requires
        header_entries(*old(map)).dom().union(header_entries(other).dom()).len()
            <= header_names_limit(),
    ensures
        header_entries(*final(map)) == header_entries(*old(map)).union_prefer_right(
            header_entries(other),
        ),
{
    map.extend(other);
}

} // verus!
