//! The decoder: from a foreign value to a header map, or to the reason why it
//! is none.

use axum::http::{HeaderMap, HeaderName, HeaderValue};
use vstd::prelude::*;

use crate::error::DecodeError;
use crate::http_types::{header_map_fields, try_insert, SAFE_NAME_COUNT};
use crate::model::{
    decoded_fields, decodes, is_first_rejected, lemma_fields_count, lemma_fields_step, rejects,
};
use crate::value::{ForeignValue, Property, PropertyValue};

verus! {

/// The header map that a foreign object decodes to.
pub struct WrappedHeaderMap(pub HeaderMap);

/// The text of a property that is to become a header: `None` for a property
/// whose lookup gave `undefined`, the string of a string property, and a type
/// error that names the key for any other.
pub fn obj_get_header_val(prop: &Property) -> (r: Result<Option<&String>, DecodeError>)
    ensures
        match prop.value {
            PropertyValue::Undefined => r matches Ok(None),
            PropertyValue::Text(text) => r matches Ok(Some(t)) && *t == text,
            _ => r matches Err(DecodeError::TypeError { key: Some(key) }) && key == prop.key,
        },
{
    match &prop.value {
        PropertyValue::Undefined => Ok(None),
        PropertyValue::Text(text) => Ok(Some(text)),
        _ => Err(DecodeError::TypeError { key: Some(prop.key.clone()) }),
    }
}

impl WrappedHeaderMap {
    /// The fields that the map holds: for each name, its values.
    pub open spec fn fields(self) -> Map<Seq<u8>, Seq<Seq<u8>>> {
        header_map_fields(self.0)
    }

    /// Decodes an object into a header map. A value of any other type,
    /// `undefined` and `null` too, is a type error without a key. The
    /// properties are taken in order and the first rejected one ends the
    /// decoding with its error. An object of at most `SAFE_NAME_COUNT`
    /// properties never meets a capacity error.
    pub fn from_napi_value(val: &ForeignValue) -> (r: Result<WrappedHeaderMap, DecodeError>)
        ensures
            !(val is Object) ==> r matches Err(DecodeError::TypeError { key: None }),
            val matches ForeignValue::Object(props) ==> match r {
                Ok(map) => decodes(props@, Ok(map.fields())),
                Err(e) => decodes(props@, Err(e)),
            },
            val matches ForeignValue::Object(props) && props.len() <= SAFE_NAME_COUNT ==> !(r matches Err(
                DecodeError::CapacityError { .. },
            )),
    {
        let props = match val {
            ForeignValue::Object(props) => props,
            _ => { return Err(DecodeError::TypeError { key: None }); },
        };
        let mut map = HeaderMap::new();
        let mut i: usize = 0;
        while i < props.len()
            invariant
                *val == ForeignValue::Object(*props),
                i <= props.len(),
                forall|j: int| 0 <= j < i ==> !rejects(#[trigger] props@[j]),
                header_map_fields(map) == decoded_fields(props@.take(i as int)),
            decreases props.len() - i,
        {
            let prop = &props[i];
            proof {
                lemma_fields_step(props@, i as int);
                lemma_fields_count(props@.take(i as int));
            }
            match obj_get_header_val(prop) {
                Err(e) => {
                    assert(is_first_rejected(props@, i as int));
                    return Err(e);
                },
                Ok(None) => {},
                Ok(Some(text)) => {
                    let name = match HeaderName::from_bytes(prop.key.as_str().as_bytes()) {
                        Ok(name) => name,
                        Err(_) => {
                            assert(is_first_rejected(props@, i as int));
                            return Err(DecodeError::InvalidNameError { key: prop.key.clone() });
                        },
                    };
                    let value = match HeaderValue::from_str(text.as_str()) {
                        Ok(value) => value,
                        Err(_) => {
                            assert(is_first_rejected(props@, i as int));
                            return Err(DecodeError::InvalidValueError { key: prop.key.clone() });
                        },
                    };
                    match try_insert(&mut map, name, value) {
                        Ok(_) => {},
                        Err(_) => {
                            return Err(DecodeError::CapacityError { key: prop.key.clone() });
                        },
                    }
                },
            }
            i += 1;
        }
        assert(props@.take(i as int) =~= props@);
        Ok(WrappedHeaderMap(map))
    }
}

/// Decodes the headers that a caller of the foreign runtime handed over.
/// `undefined` and `null` stand for no headers at all and give `None`, never an
/// error and never an empty map. Any other value is decoded as
/// `WrappedHeaderMap::from_napi_value` does: an object gives a map or the error
/// of its first rejected property, and a value of another type is a type error
/// without a key.
pub fn parse_header_map(val: &ForeignValue) -> (r: Result<Option<HeaderMap>, DecodeError>)
    ensures
        val is Undefined || val is Null ==> r matches Ok(None),
        !(val is Undefined || val is Null || val is Object) ==> r matches Err(
            DecodeError::TypeError { key: None },
        ),
        val matches ForeignValue::Object(props) ==> match r {
            Ok(Some(map)) => decodes(props@, Ok(header_map_fields(map))),
            Ok(None) => false,
            Err(e) => decodes(props@, Err(e)),
        },
        val matches ForeignValue::Object(props) && props.len() <= SAFE_NAME_COUNT ==> !(r matches Err(
            DecodeError::CapacityError { .. },
        )),
{
    match val {
        ForeignValue::Undefined | ForeignValue::Null => Ok(None),
        _ => match WrappedHeaderMap::from_napi_value(val) {
            Ok(map) => Ok(Some(map.0)),
            Err(e) => Err(e),
        },
    }
}

} // verus!
