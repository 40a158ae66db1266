use pwr_ext::data_uri::data_uri_from_string;
use pwr_ext::data_uri::is_valid_data_uri;
use pwr_ext::json_tag::tag;
use pwr_ext::json_tag::tag_from;
use serde_json::Value;

#[test]
fn data_uri_accepts_the_base64_shape() {
    assert!(is_valid_data_uri("data:image/png;base64,iVBORw0KGgo="));
    assert!(is_valid_data_uri("data:a/b;base64,"));
}

#[test]
fn data_uri_rejects_other_shapes() {
    assert!(!is_valid_data_uri(""));
    assert!(!is_valid_data_uri("data"));
    assert!(!is_valid_data_uri("https://example.test/a.png"));
    assert!(!is_valid_data_uri("data:image/png,base64,xyz"));
    assert!(!is_valid_data_uri("data:imagepng;base64,xyz"));
    assert!(!is_valid_data_uri("data:image/png;utf8,xyz"));
    assert!(!is_valid_data_uri("dat:image/png;base64,xyz"));
    // The mime type ends at the first `;`: the slash must come before it.
    assert!(!is_valid_data_uri("data:image;x/y;base64,xyz"));
}

#[test]
fn data_uri_error_quotes_the_input() {
    let ok = data_uri_from_string("data:image/gif;base64,R0lGOD".to_owned()).unwrap();
    assert_eq!(ok.0, "data:image/gif;base64,R0lGOD");
    let err = data_uri_from_string("nope".to_owned()).err().unwrap();
    assert_eq!(err, "invalid data URI: nope");
}

#[test]
fn tag_reads_the_numeric_type() {
    let v: Value = serde_json::from_str(r#"{"type": 2, "label": "x"}"#).unwrap();
    assert_eq!(tag(&v).unwrap(), 2);
}

#[test]
fn tag_rejects_a_missing_or_non_numeric_type() {
    let v: Value = serde_json::from_str(r#"{"label": "x"}"#).unwrap();
    assert_eq!(
        tag(&v).unwrap_err(),
        r#"component missing numeric "type": {"label":"x"}"#
    );
    let v: Value = serde_json::from_str(r#"{"type": "2"}"#).unwrap();
    assert!(tag(&v).unwrap_err().starts_with("component missing numeric \"type\": "));
    let v: Value = serde_json::from_str(r#"{"type": -1}"#).unwrap();
    assert!(tag(&v).is_err());
}

#[test]
fn tag_from_builds_the_error_text() {
    assert_eq!(tag_from(Some(7), String::new()), Ok(7));
    assert_eq!(
        tag_from(None, "[1]".to_owned()),
        Err("component missing numeric \"type\": [1]".to_owned())
    );
}

#[test]
fn tag_reads_only_the_type_member() {
    let v: Value = serde_json::from_str(r#"{"kind": 1}"#).unwrap();
    assert_eq!(tag(&v).unwrap_err(), r#"component missing numeric "type": {"kind":1}"#);
    let v: Value = serde_json::from_str(r#"{"type": 1.5}"#).unwrap();
    assert_eq!(tag(&v).unwrap_err(), r#"component missing numeric "type": {"type":1.5}"#);
    let v: Value = serde_json::from_str(r#"[{"type": 3}]"#).unwrap();
    assert!(tag(&v).is_err());
    let v: Value = serde_json::from_str(r#"{"type": 18446744073709551615}"#).unwrap();
    assert_eq!(tag(&v), Ok(u64::MAX));
}
