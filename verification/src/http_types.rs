//! The header types of the `http` crate, as `axum` re-exports them, and what
//! this library takes on trust about them. Nothing in this file is proved: each
//! contract says what the source of `http` shows.

use axum::http::header::{InvalidHeaderName, InvalidHeaderValue, MaxSizeReached};
use axum::http::{HeaderMap, HeaderName, HeaderValue};
use vstd::prelude::*;
use vstd::string::StringSliceAdditionalSpecFns;

use crate::grammar::{is_header_name, is_header_value, normalized};

verus! {

/// `http::HeaderName`, a validated field name.
#[verifier::external_type_specification]
#[verifier::external_body]
pub struct ExHeaderName(HeaderName);

/// `http::HeaderValue`, a validated field value.
#[verifier::external_type_specification]
#[verifier::external_body]
pub struct ExHeaderValue(HeaderValue);

/// `http::HeaderMap`, a multimap from field names to field values.
#[verifier::external_type_specification]
#[verifier::external_body]
#[verifier::reject_recursive_types(T)]
pub struct ExHeaderMap<T>(HeaderMap<T>);

/// `http::header::InvalidHeaderName`, the error of `HeaderName::from_bytes`.
#[verifier::external_type_specification]
#[verifier::external_body]
pub struct ExInvalidHeaderName(InvalidHeaderName);

/// `http::header::InvalidHeaderValue`, the error of `HeaderValue::from_str`.
#[verifier::external_type_specification]
#[verifier::external_body]
pub struct ExInvalidHeaderValue(InvalidHeaderValue);

/// `http::header::MaxSizeReached`, the error of `HeaderMap::try_insert`.
#[verifier::external_type_specification]
#[verifier::external_body]
pub struct ExMaxSizeReached(MaxSizeReached);

/// The bytes that a field name holds: those of `HeaderName::as_str`.
pub uninterp spec fn header_name_bytes(name: HeaderName) -> Seq<u8>;

/// The bytes that a field value holds: those of `HeaderValue::as_bytes`.
pub uninterp spec fn header_value_bytes(value: HeaderValue) -> Seq<u8>;

/// What a header map holds: for each field name in it, the values stored under
/// that name, first to last.
pub uninterp spec fn header_map_fields(map: HeaderMap<HeaderValue>) -> Map<Seq<u8>, Seq<Seq<u8>>>;

/// A header map that holds fewer names than this refuses no insertion.
///
/// The map's slot table has at most 32768 slots. `try_insert` fails only where
/// the table would have to double beyond that: with the table at 32768 slots,
/// either when it is three quarters full (24576 names), or, after an insertion
/// met a long run of collisions, when the names times five reach the number of
/// slots, which takes 6554 names.
pub const SAFE_NAME_COUNT: usize = 6554;

/// `HeaderName::from_bytes` accepts exactly the tokens of 1 to 65535 bytes: it
/// maps each byte through a table that sends an upper-case letter to its
/// lower-case form, any other token byte to itself and every other byte to
/// zero, and fails on a zero, on the empty input and on a longer one. The name
/// holds the mapped bytes.
pub assume_specification[ HeaderName::from_bytes ](src: &[u8]) -> (r: Result<
    HeaderName,
    InvalidHeaderName,
>)
    ensures
        r is Ok <==> is_header_name(src@),
        r matches Ok(name) ==> header_name_bytes(name) == normalized(src@),
;

/// `HeaderValue::from_str` accepts exactly the strings of whose UTF-8 bytes
/// each is a tab or at least 0x20 and not 0x7f, bytes from 0x80 up included
/// (so its source; its documentation speaks of visible ASCII only), and the
/// value holds a copy of those bytes.
pub assume_specification[ HeaderValue::from_str ](src: &str) -> (r: Result<
    HeaderValue,
    InvalidHeaderValue,
>)
    ensures
        r is Ok <==> is_header_value(src.spec_bytes()),
        r matches Ok(value) ==> header_value_bytes(value) == src.spec_bytes(),
;

/// `HeaderMap::new` makes a map that holds nothing.
pub assume_specification[ HeaderMap::<HeaderValue>::new ]() -> (r: HeaderMap<HeaderValue>)
    ensures
        header_map_fields(r) == (Map::<Seq<u8>, Seq<Seq<u8>>>::empty()),
;

/// `HeaderMap::try_insert` with a `HeaderName` for the key. On success the name is bound to the one new
/// value, whatever was stored under it before, and the other names keep what
/// they held. It succeeds on every map of fewer than `SAFE_NAME_COUNT` names;
/// on a map of more it may fail, and nothing is said here of the map then.
#[verifier::external_body]
pub(crate) fn try_insert(map: &mut HeaderMap<HeaderValue>, name: HeaderName, value: HeaderValue) -> (r:
    Result<Option<HeaderValue>, MaxSizeReached>)
    ensures
        r is Ok ==> header_map_fields(*final(map)) == header_map_fields(*old(map)).insert(
            header_name_bytes(name),
            seq![header_value_bytes(value)],
        ),
        header_map_fields(*old(map)).dom().finite() && header_map_fields(*old(map)).dom().len()
            < SAFE_NAME_COUNT ==> r is Ok,
{
    map.try_insert(name, value)
}

} // verus!
