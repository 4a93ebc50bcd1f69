//! The ways in which decoding fails.

use vstd::prelude::*;
use vstd::string::StringExecFns;

verus! {

/// Why a value was not decoded. Every kind is a fault of the argument that was
/// handed in; none leaves anything half done.
#[derive(Clone, Debug, PartialEq, Eq)]
pub enum DecodeError {
    /// The value is not an object (`key` is `None`), or the property `key` of
    /// the object is neither absent nor a string.
    TypeError { key: Option<String> },
    /// The key is not a header name.
    InvalidNameError { key: String },
    /// The string under `key` is not a header value.
    InvalidValueError { key: String },
    /// The header collection refused the field of `key`: it holds too many
    /// names already.
    CapacityError { key: String },
}

impl DecodeError {
    /// Whether two errors say the same: they are of one kind and name keys of
    /// equal text.
    pub open spec fn same_as(self, other: DecodeError) -> bool {
        match (self, other) {
            (DecodeError::TypeError { key: None }, DecodeError::TypeError { key: None }) => true,
            (
                DecodeError::TypeError { key: Some(a) },
                DecodeError::TypeError { key: Some(b) },
            ) => a@ == b@,
            (DecodeError::InvalidNameError { key: a }, DecodeError::InvalidNameError { key: b }) => a@
                == b@,
            (
                DecodeError::InvalidValueError { key: a },
                DecodeError::InvalidValueError { key: b },
            ) => a@ == b@,
            (DecodeError::CapacityError { key: a }, DecodeError::CapacityError { key: b }) => a@
                == b@,
            _ => false,
        }
    }

    /// The text of `message`.
    pub open spec fn message_text(self) -> Seq<char> {
        match self {
            DecodeError::TypeError { key: None } => "expected an object-shaped value"@,
            DecodeError::TypeError { key: Some(key) } => "header `"@ + key@
                + "`: header value must be a string"@,
            DecodeError::InvalidNameError { key } => "header `"@ + key@
                + "`: invalid header name"@,
            DecodeError::InvalidValueError { key } => "header `"@ + key@
                + "`: invalid header value"@,
            DecodeError::CapacityError { key } => "header `"@ + key@
                + "`: too many headers"@,
        }
    }

    /// A message for people, which names the offending key where there is one.
    pub fn message(&self) -> (r: String)
        ensures
            r@ == self.message_text(),
    {
        match self {
            DecodeError::TypeError { key: None } => String::from_str(
                "expected an object-shaped value",
            ),
            DecodeError::TypeError { key: Some(key) } => keyed_message(
                key,
                "`: header value must be a string",
            ),
            DecodeError::InvalidNameError { key } => keyed_message(key, "`: invalid header name"),
            DecodeError::InvalidValueError { key } => keyed_message(
                key,
                "`: invalid header value",
            ),
            DecodeError::CapacityError { key } => keyed_message(key, "`: too many headers"),
        }
    }
}

fn keyed_message(key: &String, what: &str) -> (r: String)
    ensures
        r@ == "header `"@ + key@ + what@,
{
    let mut text = String::from_str("header `");
    text.append(key.as_str());
    text.append(what);
    text
}

} // verus!
