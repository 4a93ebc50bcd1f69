//! Decoding of a loosely typed key/value object, as a JavaScript runtime hands
//! it over, into a validated collection of HTTP header fields.

pub mod decode;
pub mod error;
pub mod grammar;
pub mod http_types;
pub mod laws;
pub mod model;
pub mod value;

pub use decode::{obj_get_header_val, parse_header_map, WrappedHeaderMap};
pub use error::DecodeError;
pub use value::{ForeignValue, Property, PropertyValue};
