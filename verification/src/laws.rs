//! What holds of every decoding.

use vstd::prelude::*;
use vstd::utf8::{decode_utf8, encode_utf8, encode_utf8_decode_utf8};

use crate::error::DecodeError;
use crate::grammar::{is_header_name, is_header_value, is_token_byte, lower_byte, normalized};
use crate::model::{decoded_fields, decodes, is_first_rejected, rejection, rejects, verdict, Verdict};
use crate::value::{same_properties, same_property, Property, PropertyValue};

verus! {

/// Whether the property at `i` gives a field of the name `name`.
pub open spec fn binds(props: Seq<Property>, i: int, name: Seq<u8>) -> bool {
    &&& 0 <= i < props.len()
    &&& verdict(props[i]) matches Verdict::Field { name: n, .. }
    &&& n == name
}

/// Whether no byte of `s` is an upper-case ASCII letter.
pub open spec fn has_no_upper_case(s: Seq<u8>) -> bool {
    forall|i: int| 0 <= i < s.len() ==> !(0x41 <= #[trigger] s[i] <= 0x5a)
}

/// Whether `a` and `b` are equal but for the case of ASCII letters.
pub open spec fn eq_ignoring_case(a: Seq<u8>, b: Seq<u8>) -> bool {
    &&& a.len() == b.len()
    &&& forall|i: int| 0 <= i < a.len() ==> lower_byte(#[trigger] a[i]) == lower_byte(b[i])
}

/// Names are compared without regard to case: two keys have the same normal
/// form exactly when they are equal but for the case of ASCII letters.
pub proof fn law_names_ignore_case(a: Seq<u8>, b: Seq<u8>)
    ensures
        normalized(a) == normalized(b) <==> eq_ignoring_case(a, b),
{
    if normalized(a) == normalized(b) {
        assert(normalized(a).len() == normalized(b).len());
        assert forall|i: int| 0 <= i < a.len() implies lower_byte(#[trigger] a[i]) == lower_byte(
            b[i],
        ) by {
            assert(normalized(a)[i] == normalized(b)[i]);
        }
    }
    if eq_ignoring_case(a, b) {
        assert(normalized(a) =~= normalized(b));
    }
}

/// The last write wins: where several properties give a field of one name,
/// that name holds exactly one value, the value of the last of them.
pub proof fn law_last_write_wins(props: Seq<Property>, i: int, name: Seq<u8>)
    requires
        binds(props, i, name),
        forall|j: int| i < j < props.len() ==> !binds(props, j, name),
    ensures
        decoded_fields(props).dom().contains(name),
        decoded_fields(props)[name] == seq![verdict(props[i])->value],
    decreases props.len(),
{
    let last = props.len() - 1;
    if i < last {
        let earlier = props.drop_last();
        assert(binds(earlier, i, name));
        assert forall|j: int| i < j < earlier.len() implies !binds(earlier, j, name) by {
            assert(!binds(props, j, name));
        }
        law_last_write_wins(earlier, i, name);
        assert(!binds(props, last, name));
    }
}

/// Every name among the fields comes from a property: the last one that gives
/// a field of that name, whose value is the one value that the name holds.
pub proof fn law_field_has_source(props: Seq<Property>, name: Seq<u8>) -> (i: int)
    requires
        decoded_fields(props).dom().contains(name),
    ensures
        binds(props, i, name),
        forall|j: int| i < j < props.len() ==> !binds(props, j, name),
        decoded_fields(props)[name] == seq![verdict(props[i])->value],
    decreases props.len(),
{
    let last = props.len() - 1;
    if binds(props, last, name) {
        last
    } else {
        let earlier = props.drop_last();
        let i = law_field_has_source(earlier, name);
        assert(binds(props, i, name));
        assert forall|j: int| i < j < props.len() implies !binds(props, j, name) by {
            if j < last {
                assert(!binds(earlier, j, name));
            }
        }
        i
    }
}

/// The normal form of a header name is a header name.
pub proof fn law_normal_form_is_a_name(s: Seq<u8>)
    requires
        is_header_name(s),
    ensures
        is_header_name(normalized(s)),
        has_no_upper_case(normalized(s)),
{
    assert forall|i: int| 0 <= i < normalized(s).len() implies is_token_byte(
        #[trigger] normalized(s)[i],
    ) by {
        assert(is_token_byte(s[i]));
    }
}

/// The fields hold validated data only: every name among them is a header name
/// in normal form, and it holds exactly one value, which is a header value.
pub proof fn law_fields_are_valid(props: Seq<Property>, name: Seq<u8>)
    requires
        decoded_fields(props).dom().contains(name),
    ensures
        is_header_name(name),
        has_no_upper_case(name),
        decoded_fields(props)[name].len() == 1,
        is_header_value(decoded_fields(props)[name][0]),
{
    let i = law_field_has_source(props, name);
    law_normal_form_is_a_name(encode_utf8(props[i].key@));
}

/// A name without upper-case letters is its own normal form.
pub proof fn law_lower_case_is_normal(s: Seq<u8>)
    requires
        has_no_upper_case(s),
    ensures
        normalized(s) == s,
{
    assert(normalized(s) =~= s);
}

/// Round trip: a field's value is, byte for byte, the UTF-8 text of the string
/// that the property held, and reads back as that string. Its name is the
/// normal form of the key's bytes; where the key has no upper-case letter the
/// name is the key, byte for byte, and reads back as the key.
pub proof fn law_round_trip(props: Seq<Property>, name: Seq<u8>) -> (i: int)
    requires
        decoded_fields(props).dom().contains(name),
    ensures
        0 <= i < props.len(),
        props[i].value matches PropertyValue::Text(text) && decoded_fields(props)[name]
            == seq![encode_utf8(text@)] && decode_utf8(decoded_fields(props)[name][0]) == text@,
        name == normalized(encode_utf8(props[i].key@)),
        has_no_upper_case(encode_utf8(props[i].key@)) ==> name == encode_utf8(props[i].key@)
            && decode_utf8(name) == props[i].key@,
{
    let i = law_field_has_source(props, name);
    match props[i].value {
        PropertyValue::Text(text) => {
            encode_utf8_decode_utf8(text@);
        },
        _ => {},
    }
    if has_no_upper_case(encode_utf8(props[i].key@)) {
        law_lower_case_is_normal(encode_utf8(props[i].key@));
        encode_utf8_decode_utf8(props[i].key@);
    }
    i
}

/// Properties of the same content get the same verdict.
pub proof fn law_same_property_same_verdict(p: Property, q: Property)
    requires
        same_property(p, q),
    ensures
        verdict(p) == verdict(q),
        rejects(p) ==> rejection(p).same_as(rejection(q)),
{
}

/// Property lists of the same content give the same fields.
pub proof fn law_same_content_same_fields(ps: Seq<Property>, qs: Seq<Property>)
    requires
        same_properties(ps, qs),
    ensures
        decoded_fields(ps) == decoded_fields(qs),
    decreases ps.len(),
{
    if ps.len() > 0 {
        law_same_property_same_verdict(ps.last(), qs.last());
        assert(same_properties(ps.drop_last(), qs.drop_last())) by {
            assert forall|i: int| 0 <= i < ps.drop_last().len() implies same_property(
                #[trigger] ps.drop_last()[i],
                qs.drop_last()[i],
            ) by {
                assert(same_property(ps[i], qs[i]));
            }
        }
        law_same_content_same_fields(ps.drop_last(), qs.drop_last());
    }
}

/// Decoding is repeatable: two decodings of property lists of the same content
/// that both give a map give the same fields, two that both fail on a property
/// fail with the same error, and never does one give a map where the other
/// fails on a property.
pub proof fn law_same_content_same_result(
    ps: Seq<Property>,
    qs: Seq<Property>,
    r1: Result<Map<Seq<u8>, Seq<Seq<u8>>>, DecodeError>,
    r2: Result<Map<Seq<u8>, Seq<Seq<u8>>>, DecodeError>,
)
    requires
        same_properties(ps, qs),
        decodes(ps, r1),
        decodes(qs, r2),
    ensures
        match (r1, r2) {
            (Ok(f1), Ok(f2)) => f1 == f2,
            (Err(DecodeError::CapacityError { .. }), _) => true,
            (_, Err(DecodeError::CapacityError { .. })) => true,
            (Err(e1), Err(e2)) => e1.same_as(e2),
            _ => false,
        },
{
    law_same_content_same_fields(ps, qs);
    assert forall|k: int| 0 <= k < ps.len() implies rejects(ps[k]) == rejects(qs[k]) && (rejects(
        ps[k],
    ) ==> rejection(ps[k]).same_as(rejection(qs[k]))) by {
        law_same_property_same_verdict(ps[k], qs[k]);
    }
    match (r1, r2) {
        (Ok(_), Ok(_)) => {},
        (Err(DecodeError::CapacityError { .. }), _) => {},
        (_, Err(DecodeError::CapacityError { .. })) => {},
        (Err(e1), Err(e2)) => {
            let k1 = choose|k: int| #[trigger] is_first_rejected(ps, k) && e1 == rejection(ps[k]);
            let k2 = choose|k: int| #[trigger] is_first_rejected(qs, k) && e2 == rejection(qs[k]);
            if k1 < k2 {
                assert(!rejects(qs[k1]));
            } else if k2 < k1 {
                assert(!rejects(ps[k2]));
            }
        },
        (Err(e1), Ok(_)) => {
            let k1 = choose|k: int| #[trigger] is_first_rejected(ps, k) && e1 == rejection(ps[k]);
            assert(!rejects(qs[k1]));
        },
        (Ok(_), Err(e2)) => {
            let k2 = choose|k: int| #[trigger] is_first_rejected(qs, k) && e2 == rejection(qs[k]);
            assert(!rejects(ps[k2]));
        },
    }
}

} // verus!
