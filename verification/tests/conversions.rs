use serdeconv::from_json_slice;
use serdeconv::from_json_str;
use serdeconv::from_toml;
use serdeconv::from_toml_str;
use serdeconv::to_json_string;
use serdeconv::to_json_string_pretty;
use serdeconv::to_toml;
use serdeconv::to_toml_string;
use serdeconv::value_eq;
use serdeconv::Error;
use serdeconv::ErrorKind;
use serdeconv::FromToml;
use serdeconv::StructuredValue;
use serdeconv::ToToml;

fn sample_table() -> StructuredValue {
    StructuredValue::Table(vec![
        ("bar".to_string(), StructuredValue::Text("aaa".to_string())),
        ("baz".to_string(), StructuredValue::Integer(123)),
    ])
}

fn nested_table() -> StructuredValue {
    StructuredValue::Table(vec![
        ("enabled".to_string(), StructuredValue::Boolean(true)),
        (
            "ports".to_string(),
            StructuredValue::Array(vec![
                StructuredValue::Integer(8001),
                StructuredValue::Integer(8002),
            ]),
        ),
        (
            "owner".to_string(),
            StructuredValue::Table(vec![(
                "name".to_string(),
                StructuredValue::Text("Lisa".to_string()),
            )]),
        ),
    ])
}

#[test]
fn toml_encodes_sample_table_exactly() {
    let text = to_toml_string(&sample_table()).unwrap();
    assert_eq!(text, "bar = \"aaa\"\nbaz = 123\n");
}

#[test]
fn toml_decodes_sample_text_exactly() {
    let decoded = from_toml_str("bar = \"aaa\"\nbaz = 123\n").unwrap();
    assert!(value_eq(&decoded, &sample_table()));
}

#[test]
fn toml_round_trip_keeps_the_value() {
    let original = nested_table();
    let text = to_toml_string(&original).unwrap();
    let decoded = from_toml_str(&text).unwrap();
    assert!(value_eq(&decoded, &original));
}

#[test]
fn json_round_trip_keeps_the_value() {
    let original = nested_table();
    let text = to_json_string(&original).unwrap();
    let decoded = from_json_str(&text).unwrap();
    assert!(value_eq(&decoded, &original));
}

#[test]
fn json_round_trip_keeps_a_non_table_root() {
    let original = StructuredValue::Array(vec![
        StructuredValue::Integer(1),
        StructuredValue::Text("two".to_string()),
        StructuredValue::Boolean(false),
    ]);
    let text = to_json_string(&original).unwrap();
    let decoded = from_json_str(&text).unwrap();
    assert!(value_eq(&decoded, &original));
}

#[test]
fn malformed_toml_is_a_decode_failure() {
    let err = from_toml_str("bar = [1, 2").unwrap_err();
    assert_eq!(err.kind, ErrorKind::DecodeFailure);
}

#[test]
fn malformed_json_is_a_decode_failure() {
    let err = from_json_str("{\"open\": ").unwrap_err();
    assert_eq!(err.kind, ErrorKind::DecodeFailure);
}

#[test]
fn toml_float_is_outside_the_model() {
    let err = from_toml_str("ratio = 1.5\n").unwrap_err();
    assert_eq!(err.kind, ErrorKind::DecodeFailure);
}

#[test]
fn json_null_is_outside_the_model() {
    let err = from_json_str("{\"nothing\": null}").unwrap_err();
    assert_eq!(err.kind, ErrorKind::DecodeFailure);
}

#[test]
fn json_huge_integer_is_outside_the_model() {
    let err = from_json_str("[18446744073709551615]").unwrap_err();
    assert_eq!(err.kind, ErrorKind::DecodeFailure);
    let ok = from_json_str("[9223372036854775807]").unwrap();
    assert!(value_eq(
        &ok,
        &StructuredValue::Array(vec![StructuredValue::Integer(i64::MAX)])
    ));
}

#[test]
fn pretty_and_compact_json_decode_to_the_same_value() {
    let original = nested_table();
    let compact = to_json_string(&original).unwrap();
    let pretty = to_json_string_pretty(&original).unwrap();
    assert_ne!(compact, pretty);
    let from_compact = from_json_str(&compact).unwrap();
    let from_pretty = from_json_str(&pretty).unwrap();
    assert!(value_eq(&from_compact, &from_pretty));
    assert!(value_eq(&from_compact, &original));
}

#[test]
fn toml_refuses_a_non_table_root() {
    let err = to_toml_string(&StructuredValue::Integer(5)).unwrap_err();
    assert_eq!(err.kind, ErrorKind::EncodeFailure);
}

#[test]
fn json_from_slice_decodes_bytes() {
    let decoded = from_json_slice(b"[1, 2, 3]").unwrap();
    let expected = StructuredValue::Array(vec![
        StructuredValue::Integer(1),
        StructuredValue::Integer(2),
        StructuredValue::Integer(3),
    ]);
    assert!(value_eq(&decoded, &expected));
}

#[test]
fn error_constructors_set_the_kind() {
    assert_eq!(Error::io("gone".to_string()).kind, ErrorKind::IoFailure);
    assert_eq!(Error::decode("bad".to_string()).kind, ErrorKind::DecodeFailure);
    assert_eq!(Error::encode("deep".to_string()).kind, ErrorKind::EncodeFailure);
}

#[test]
fn tracking_appends_locations_and_keeps_the_kind() {
    let mut err = Error::decode("unexpected character".to_string());
    err.track("from_toml_str".to_string());
    err.track("load_config".to_string());
    assert_eq!(err.kind, ErrorKind::DecodeFailure);
    assert_eq!(err.message, "unexpected character");
    assert_eq!(err.trace, vec!["from_toml_str".to_string(), "load_config".to_string()]);
}

#[test]
fn decode_errors_carry_a_location_trace() {
    let err = from_toml_str("= nonsense").unwrap_err();
    assert_eq!(err.trace, vec!["from_toml_str".to_string()]);
}

#[test]
fn value_eq_tells_trees_apart() {
    assert!(value_eq(&sample_table(), &sample_table()));
    assert!(!value_eq(&sample_table(), &nested_table()));
    assert!(!value_eq(
        &StructuredValue::Integer(1),
        &StructuredValue::Boolean(true)
    ));
    assert!(!value_eq(
        &StructuredValue::Table(vec![("a".to_string(), StructuredValue::Integer(1))]),
        &StructuredValue::Table(vec![("b".to_string(), StructuredValue::Integer(1))])
    ));
}

#[test]
fn duplicate_copies_the_whole_tree() {
    let original = nested_table();
    let copy = original.duplicate();
    assert!(value_eq(&copy, &original));
}

#[test]
fn trait_methods_mirror_the_free_functions() {
    let v = StructuredValue::from_toml_str("bar = \"aaa\"\nbaz = 123\n").unwrap();
    assert!(value_eq(&v, &sample_table()));
    let text = sample_table().to_toml_string().unwrap();
    assert_eq!(text, "bar = \"aaa\"\nbaz = 123\n");
    let roundabout: StructuredValue = from_toml(to_toml(&sample_table()).unwrap()).unwrap();
    assert!(value_eq(&roundabout, &sample_table()));
}

#[test]
fn json_encodes_sample_table_exactly() {
    let text = to_json_string(&sample_table()).unwrap();
    assert_eq!(text, "{\"bar\":\"aaa\",\"baz\":123}");
}

#[test]
fn empty_toml_text_is_an_empty_table() {
    let decoded = from_toml_str("").unwrap();
    assert!(value_eq(&decoded, &StructuredValue::Table(vec![])));
}

#[test]
fn empty_table_round_trips_in_both_formats() {
    let empty = StructuredValue::Table(vec![]);
    let toml_text = to_toml_string(&empty).unwrap();
    assert_eq!(toml_text, "");
    assert!(value_eq(&from_toml_str(&toml_text).unwrap(), &empty));
    let json_text = to_json_string(&empty).unwrap();
    assert_eq!(json_text, "{}");
    assert!(value_eq(&from_json_str(&json_text).unwrap(), &empty));
}

#[test]
fn table_order_is_kept_through_a_round_trip() {
    let unsorted = StructuredValue::Table(vec![
        ("zed".to_string(), StructuredValue::Integer(1)),
        ("alpha".to_string(), StructuredValue::Integer(2)),
    ]);
    let toml_text = to_toml_string(&unsorted).unwrap();
    assert!(value_eq(&from_toml_str(&toml_text).unwrap(), &unsorted));
    let json_text = to_json_string(&unsorted).unwrap();
    assert!(value_eq(&from_json_str(&json_text).unwrap(), &unsorted));
}
