//! What the decoder reads of a value of the foreign runtime: its type tag, the
//! properties of an object, and the text of a string property.

use vstd::prelude::*;

verus! {

/// What a lookup of one key in a foreign object gave: the type tag of the
/// value and, for a string, its text.
#[derive(Clone, Debug, PartialEq, Eq)]
pub enum PropertyValue {
    Undefined,
    Null,
    Boolean,
    Number,
    Text(String),
    Symbol,
    Object,
    Function,
    External,
    BigInt,
    Unknown,
}

/// One key of a foreign object's own enumerable keys, with what its lookup
/// gave.
#[derive(Clone, Debug, PartialEq, Eq)]
pub struct Property {
    pub key: String,
    pub value: PropertyValue,
}

/// A value as it crosses the boundary: its type tag and, for an object, its
/// properties in the order in which the runtime enumerates the keys.
#[derive(Clone, Debug, PartialEq, Eq)]
pub enum ForeignValue {
    Undefined,
    Null,
    Boolean,
    Number,
    Text,
    Symbol,
    Object(Vec<Property>),
    Function,
    External,
    BigInt,
    Unknown,
}

/// Whether two properties have the same content: equal key text, the same type
/// tag and, for strings, equal text.
pub open spec fn same_property(p: Property, q: Property) -> bool {
    &&& p.key@ == q.key@
    &&& match (p.value, q.value) {
        (PropertyValue::Text(s), PropertyValue::Text(t)) => s@ == t@,
        (PropertyValue::Text(_), _) => false,
        (_, PropertyValue::Text(_)) => false,
        (a, b) => a == b,
    }
}

/// Whether two property lists have the same content, position by position.
pub open spec fn same_properties(ps: Seq<Property>, qs: Seq<Property>) -> bool {
    &&& ps.len() == qs.len()
    &&& forall|i: int| 0 <= i < ps.len() ==> same_property(#[trigger] ps[i], qs[i])
}

} // verus!
