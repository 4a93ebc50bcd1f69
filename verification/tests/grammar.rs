use js_headers::{parse_header_map, DecodeError, ForeignValue, Property, PropertyValue};

fn decode_one(key: &str, value: &str) -> Result<Vec<(String, Vec<u8>)>, DecodeError> {
    let props = vec![Property { key: key.to_string(), value: PropertyValue::Text(value.to_string()) }];
    let map = parse_header_map(&ForeignValue::Object(props))?.unwrap();
    Ok(map.iter().map(|(n, v)| (n.as_str().to_string(), v.as_bytes().to_vec())).collect())
}

fn is_token(b: u8) -> bool {
    b.is_ascii_alphanumeric() || b"!#$%&'*+-.^_`|~".contains(&b)
}

#[test]
fn each_ascii_byte_as_a_name() {
    for b in 0u8..128 {
        let key = (b as char).to_string();
        let got = decode_one(&key, "v");
        if is_token(b) {
            let name = (b.to_ascii_lowercase() as char).to_string();
            assert_eq!(got, Ok(vec![(name, b"v".to_vec())]), "byte {}", b);
        } else {
            assert_eq!(got, Err(DecodeError::InvalidNameError { key }), "byte {}", b);
        }
    }
}

#[test]
fn each_ascii_byte_inside_a_long_name() {
    for b in 0u8..128 {
        let key = format!("{}{}", "k".repeat(70), b as char);
        let got = decode_one(&key, "v");
        if is_token(b) {
            let name = format!("{}{}", "k".repeat(70), b.to_ascii_lowercase() as char);
            assert_eq!(got, Ok(vec![(name, b"v".to_vec())]), "byte {}", b);
        } else {
            assert_eq!(got, Err(DecodeError::InvalidNameError { key }), "byte {}", b);
        }
    }
}

#[test]
fn each_ascii_byte_as_a_value() {
    for b in 0u8..128 {
        let value = (b as char).to_string();
        let got = decode_one("k", &value);
        if b == 9 || (b >= 32 && b != 127) {
            assert_eq!(got, Ok(vec![("k".to_string(), vec![b])]), "byte {}", b);
        } else {
            assert_eq!(got, Err(DecodeError::InvalidValueError { key: "k".to_string() }), "byte {}", b);
        }
    }
}

#[test]
fn characters_beyond_ascii() {
    for c in ['\u{80}', '\u{ff}', '\u{100}', '\u{7ff}', '\u{800}', '\u{ffff}', '\u{10000}', '\u{10ffff}'] {
        let s = c.to_string();
        assert_eq!(decode_one(&s, "v"), Err(DecodeError::InvalidNameError { key: s.clone() }));
        assert_eq!(decode_one("k", &s), Ok(vec![("k".to_string(), s.as_bytes().to_vec())]));
    }
}

#[test]
fn standard_names_are_stored_like_any_other() {
    assert_eq!(
        decode_one("Content-Length", "12"),
        Ok(vec![("content-length".to_string(), b"12".to_vec())])
    );
    assert_eq!(decode_one("HOST", "h"), Ok(vec![("host".to_string(), b"h".to_vec())]));
}
