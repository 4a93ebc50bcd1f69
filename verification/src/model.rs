//! What decoding means: the verdict on one property, and the fields and the
//! errors that a list of properties gives.

use vstd::prelude::*;
use vstd::utf8::encode_utf8;

use crate::error::DecodeError;
use crate::grammar::{is_header_name, is_header_value, normalized};
use crate::http_types::SAFE_NAME_COUNT;
use crate::value::{Property, PropertyValue};

verus! {

/// What the decoder makes of one property.
pub enum Verdict {
    /// The lookup gave `undefined`: the key is passed over.
    Absent,
    /// The value is not a string.
    NotText,
    /// The value is a string, but the key is not a header name.
    BadName,
    /// The key is a header name, but the string is not a header value.
    BadValue,
    /// A header field: the name in its normal form, and the value.
    Field { name: Seq<u8>, value: Seq<u8> },
}

/// The verdict on a property: the type of the value is judged first, then the
/// key, then the text.
pub open spec fn verdict(p: Property) -> Verdict {
    match p.value {
        PropertyValue::Undefined => Verdict::Absent,
        PropertyValue::Text(text) => if !is_header_name(encode_utf8(p.key@)) {
            Verdict::BadName
        } else if !is_header_value(encode_utf8(text@)) {
            Verdict::BadValue
        } else {
            Verdict::Field { name: normalized(encode_utf8(p.key@)), value: encode_utf8(text@) }
        },
        _ => Verdict::NotText,
    }
}

/// Whether a property makes the whole decoding fail.
pub open spec fn rejects(p: Property) -> bool {
    verdict(p) is NotText || verdict(p) is BadName || verdict(p) is BadValue
}

/// The error that a rejected property gives; it carries the property's key.
pub open spec fn rejection(p: Property) -> DecodeError {
    match verdict(p) {
        Verdict::NotText => DecodeError::TypeError { key: Some(p.key) },
        Verdict::BadName => DecodeError::InvalidNameError { key: p.key },
        _ => DecodeError::InvalidValueError { key: p.key },
    }
}

/// Whether `k` is the place of the first rejected property of `props`.
pub open spec fn is_first_rejected(props: Seq<Property>, k: int) -> bool {
    &&& 0 <= k < props.len()
    &&& rejects(props[k])
    &&& forall|j: int| 0 <= j < k ==> !rejects(#[trigger] props[j])
}

/// The fields that `props` give, taken in order: each field binds its name to
/// its one value, and so replaces what an earlier property bound that name to.
pub open spec fn decoded_fields(props: Seq<Property>) -> Map<Seq<u8>, Seq<Seq<u8>>>
    decreases props.len(),
{
    if props.len() == 0 {
        Map::empty()
    } else {
        let earlier = decoded_fields(props.drop_last());
        match verdict(props.last()) {
            Verdict::Field { name, value } => earlier.insert(name, seq![value]),
            _ => earlier,
        }
    }
}

/// Whether `r` is a result of decoding the properties `props`, where `Ok`
/// holds the fields of the map that was built.
///
/// Without a capacity error the result is fixed: the error of the first
/// rejected property or, where there is none, the fields of `props`. A
/// capacity error names a field before any rejected property, before which
/// the map held `SAFE_NAME_COUNT` names or more.
pub open spec fn decodes(
    props: Seq<Property>,
    r: Result<Map<Seq<u8>, Seq<Seq<u8>>>, DecodeError>,
) -> bool {
    match r {
        Ok(fields) => {
            &&& forall|k: int| 0 <= k < props.len() ==> !rejects(#[trigger] props[k])
            &&& fields == decoded_fields(props)
        },
        Err(DecodeError::CapacityError { key }) => exists|k: int|
            {
                &&& 0 <= k < props.len()
                &&& forall|j: int| 0 <= j < k ==> !rejects(#[trigger] props[j])
                &&& verdict(props[k]) is Field
                &&& key == props[k].key
                &&& #[trigger] decoded_fields(props.take(k)).dom().len() >= SAFE_NAME_COUNT
            },
        Err(e) => exists|k: int| #[trigger] is_first_rejected(props, k) && e == rejection(props[k]),
    }
}

/// The fields of a prefix grow by the verdict on the next property.
pub proof fn lemma_fields_step(props: Seq<Property>, i: int)
    requires
        0 <= i < props.len(),
    ensures
        decoded_fields(props.take(i + 1)) == match verdict(props[i]) {
            Verdict::Field { name, value } => decoded_fields(props.take(i)).insert(
                name,
                seq![value],
            ),
            _ => decoded_fields(props.take(i)),
        },
{
    assert(props.take(i + 1).drop_last() =~= props.take(i));
    assert(props.take(i + 1).last() == props[i]);
}

/// The fields of a property list are finitely many names, at most one for each
/// property.
pub proof fn lemma_fields_count(props: Seq<Property>)
    ensures
        decoded_fields(props).dom().finite(),
        decoded_fields(props).dom().len() <= props.len(),
    decreases props.len(),
{
    if props.len() > 0 {
        lemma_fields_count(props.drop_last());
    }
}

} // verus!
