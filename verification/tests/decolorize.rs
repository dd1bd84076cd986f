use greptime_common::ansi::{remove_color_codes, utf8_lossy};
use greptime_common::decolorize::DecolorizeProcessor;
use greptime_common::pipeline::{Field, Fields, PipelineError};
use greptime_common::value::Value;
use greptime_common::yaml::Yaml;

fn bytes_of(v: &Value) -> Vec<u8> {
    match v {
        Value::Bytes(b) => b.clone(),
        other => panic!("expected bytes, got {:?}", other),
    }
}

fn text(s: &str) -> Value {
    Value::Bytes(s.as_bytes().to_vec())
}

fn object(entries: Vec<(&str, Value)>) -> Value {
    Value::Object(entries.into_iter().map(|(k, v)| (k.to_string(), v)).collect())
}

fn get<'a>(v: &'a Value, key: &str) -> Option<&'a Value> {
    match v {
        Value::Object(entries) => entries.iter().find(|(k, _)| k == key).map(|(_, v)| v),
        _ => None,
    }
}

fn key_count(v: &Value) -> usize {
    match v {
        Value::Object(entries) => entries.len(),
        _ => 0,
    }
}

#[test]
fn test_decolorize_processor() {
    let processor = DecolorizeProcessor::new(Fields::default(), false);

    let val = text("\x1b[32mGreen\x1b[0m");
    let result = processor.process(&val).unwrap();
    assert_eq!(bytes_of(&result), "Green".as_bytes().to_vec());

    let val = text("Plain text");
    let result = processor.process(&val).unwrap();
    assert_eq!(bytes_of(&result), "Plain text".as_bytes().to_vec());

    let val = text("\x1b[46mfoo\x1b[0m bar");
    let result = processor.process(&val).unwrap();
    assert_eq!(bytes_of(&result), "foo bar".as_bytes().to_vec());
}

#[test]
fn remove_color_codes_handles_parameters_and_incomplete_codes() {
    assert_eq!(remove_color_codes("\x1b[1;31;42mred\x1b[m"), "red");
    assert_eq!(remove_color_codes("\x1b[31"), "\x1b[31");
    assert_eq!(remove_color_codes("\x1b[3xm"), "\x1b[3xm");
    assert_eq!(remove_color_codes(""), "");
    assert_eq!(remove_color_codes("a\x1b[0mb\x1b[0mc"), "abc");
    let long = "\x1b[1mx\x1b[0m and more";
    assert!(remove_color_codes(long).len() <= long.len());
}

#[test]
fn remove_color_codes_does_not_rescan_removed_text() {
    // Removing the inner code joins an outer one that is not removed again.
    assert_eq!(remove_color_codes("\x1b[\x1b[0mm"), "\x1b[m");
}

#[test]
fn law_leading_code_is_dropped() {
    let rest = "tail \x1b[1mbold\x1b[0m";
    let with_code = format!("\x1b[38;5;196m{}", rest);
    assert_eq!(remove_color_codes(&with_code), remove_color_codes(rest));
}

#[test]
fn law_plain_text_passes_unchanged() {
    let processor = DecolorizeProcessor::default();
    let input = "héllo wörld [0m";
    let out = processor.process(&text(input)).unwrap();
    assert_eq!(bytes_of(&out), input.as_bytes().to_vec());
}

#[test]
fn process_replaces_invalid_utf8() {
    let processor = DecolorizeProcessor::default();
    let out = processor.process(&Value::Bytes(vec![0xff, b'a', 0x1b, b'[', b'm'])).unwrap();
    assert_eq!(bytes_of(&out), "\u{fffd}a".as_bytes().to_vec());
    assert_eq!(utf8_lossy(&[0xff, b'x']), "\u{fffd}x");
}

#[test]
fn process_refuses_non_text() {
    let processor = DecolorizeProcessor::default();
    match processor.process(&Value::Integer(7)) {
        Err(PipelineError::ProcessorExpectString { processor, v }) => {
            assert_eq!(processor, "decolorize");
            assert!(matches!(v, Value::Integer(7)));
        }
        other => panic!("unexpected {:?}", other),
    }
}

#[test]
fn exec_mut_writes_target_field() {
    let fields = Fields::new(vec![Field::new("message".to_string(), Some("clean".to_string()))]);
    let processor = DecolorizeProcessor::new(fields, false);
    let event = object(vec![("message", text("\x1b[32mok\x1b[0m")), ("level", text("\x1b[1minfo"))]);
    let out = processor.exec_mut(event).unwrap();
    assert_eq!(bytes_of(get(&out, "clean").unwrap()), b"ok".to_vec());
    assert_eq!(bytes_of(get(&out, "message").unwrap()), "\x1b[32mok\x1b[0m".as_bytes().to_vec());
    assert_eq!(bytes_of(get(&out, "level").unwrap()), "\x1b[1minfo".as_bytes().to_vec());
    assert_eq!(key_count(&out), 3);
}

#[test]
fn exec_mut_overwrites_input_without_target() {
    let fields = Fields::one(Field::new("message".to_string(), None));
    let processor = DecolorizeProcessor::new(fields, false);
    let out = processor.exec_mut(object(vec![("message", text("\x1b[0mhi"))])).unwrap();
    assert_eq!(bytes_of(get(&out, "message").unwrap()), b"hi".to_vec());
    assert_eq!(key_count(&out), 1);
}

#[test]
fn exec_mut_missing_field_is_an_error() {
    let fields = Fields::one(Field::new("message".to_string(), None));
    let processor = DecolorizeProcessor::new(fields, false);
    match processor.exec_mut(object(vec![("other", text("x"))])) {
        Err(PipelineError::ProcessorMissingField { processor, field }) => {
            assert_eq!(processor, "decolorize");
            assert_eq!(field, "message");
        }
        other => panic!("unexpected {:?}", other),
    }
    match processor.exec_mut(object(vec![("message", Value::Null)])) {
        Err(PipelineError::ProcessorMissingField { field, .. }) => assert_eq!(field, "message"),
        other => panic!("unexpected {:?}", other),
    }
}

#[test]
fn exec_mut_ignores_missing_field_when_asked() {
    let fields = Fields::one(Field::new("message".to_string(), None));
    let processor = DecolorizeProcessor::new(fields, true);
    assert!(processor.ignore_missing());
    let out = processor.exec_mut(object(vec![("message", Value::Null), ("x", text("\x1b[0m"))])).unwrap();
    assert!(matches!(get(&out, "message"), Some(Value::Null)));
    assert_eq!(bytes_of(get(&out, "x").unwrap()), "\x1b[0m".as_bytes().to_vec());
}

#[test]
fn exec_mut_requires_an_object() {
    let fields = Fields::one(Field::new("message".to_string(), None));
    let processor = DecolorizeProcessor::new(fields, false);
    assert!(matches!(processor.exec_mut(text("x")), Err(PipelineError::ValueMustBeMap)));
}

#[test]
fn law_no_fields_keep_event() {
    let processor = DecolorizeProcessor::default();
    let out = processor.exec_mut(Value::Boolean(true)).unwrap();
    assert!(matches!(out, Value::Boolean(true)));
}

#[test]
fn exec_mut_reports_non_text_field() {
    let fields = Fields::one(Field::new("n".to_string(), None));
    let processor = DecolorizeProcessor::new(fields, false);
    let err = processor.exec_mut(object(vec![("n", Value::Array(vec![Value::Integer(1)]))])).unwrap_err();
    match err {
        PipelineError::ProcessorExpectString { v: Value::Array(items), .. } => {
            assert!(matches!(items.as_slice(), [Value::Integer(1)]));
        }
        other => panic!("unexpected {:?}", other),
    }
}

#[test]
fn kind_is_decolorize() {
    assert_eq!(DecolorizeProcessor::default().kind(), "decolorize");
}

fn ystr(s: &str) -> Yaml {
    Yaml::String(s.to_string())
}

#[test]
fn try_from_reads_field_and_ignore_missing() {
    let config = vec![
        (ystr("field"), ystr("message, clean")),
        (ystr("ignore_missing"), Yaml::Boolean(true)),
        (ystr("unknown"), Yaml::Integer(3)),
    ];
    let processor = DecolorizeProcessor::try_from(&config).unwrap();
    assert!(processor.ignore_missing());
    let out = processor.exec_mut(object(vec![("message", text("\x1b[1ma"))])).unwrap();
    assert_eq!(bytes_of(get(&out, "clean").unwrap()), b"a".to_vec());
    let out = processor.exec_mut(object(vec![("other", text("b"))])).unwrap();
    assert_eq!(key_count(&out), 1);
}

#[test]
fn try_from_reads_fields_list() {
    let config = vec![(ystr("fields"), Yaml::Array(vec![ystr("a"), ystr(" b , c ")]))];
    let processor = DecolorizeProcessor::try_from(&config).unwrap();
    assert!(!processor.ignore_missing());
    let out = processor
        .exec_mut(object(vec![("a", text("\x1b[0mx")), ("b", text("\x1b[0my"))]))
        .unwrap();
    assert_eq!(bytes_of(get(&out, "a").unwrap()), b"x".to_vec());
    assert_eq!(bytes_of(get(&out, "c").unwrap()), b"y".to_vec());
}

#[test]
fn try_from_later_keys_override() {
    let config = vec![
        (ystr("field"), ystr("a")),
        (ystr("fields"), Yaml::Array(vec![ystr("b")])),
    ];
    let processor = DecolorizeProcessor::try_from(&config).unwrap();
    let err = processor.exec_mut(object(vec![("a", text("x"))])).unwrap_err();
    assert!(matches!(err, PipelineError::ProcessorMissingField { field, .. } if field == "b"));
}

#[test]
fn try_from_errors() {
    let config = vec![(Yaml::Integer(1), ystr("a"))];
    assert!(matches!(
        DecolorizeProcessor::try_from(&config),
        Err(PipelineError::KeyMustBeString { k: Yaml::Integer(1) })
    ));

    let config = vec![(ystr("ignore_missing"), ystr("yes"))];
    match DecolorizeProcessor::try_from(&config) {
        Err(PipelineError::FieldMustBeType { field, ty }) => {
            assert_eq!(field, "ignore_missing");
            assert_eq!(ty, "boolean");
        }
        other => panic!("unexpected {:?}", other),
    }

    let config = vec![(ystr("field"), Yaml::Integer(2))];
    match DecolorizeProcessor::try_from(&config) {
        Err(PipelineError::FieldMustBeType { field, ty }) => {
            assert_eq!(field, "field");
            assert_eq!(ty, "string");
        }
        other => panic!("unexpected {:?}", other),
    }

    let config = vec![(ystr("fields"), ystr("a"))];
    match DecolorizeProcessor::try_from(&config) {
        Err(PipelineError::FieldMustBeType { field, ty }) => {
            assert_eq!(field, "fields");
            assert_eq!(ty, "list of string");
        }
        other => panic!("unexpected {:?}", other),
    }

    // A list item that is not a string reads as empty text, which names no field.
    let config = vec![(ystr("fields"), Yaml::Array(vec![ystr("a"), Yaml::Integer(1)]))];
    assert!(matches!(DecolorizeProcessor::try_from(&config), Err(PipelineError::EmptyInputField)));

    let config = vec![(ystr("field"), ystr("  , target"))];
    assert!(matches!(DecolorizeProcessor::try_from(&config), Err(PipelineError::EmptyInputField)));
}

#[test]
fn field_parse_splits_and_trims() {
    let f = Field::parse("a").unwrap();
    assert_eq!(f.input_field(), "a");
    assert_eq!(f.target_or_input_field(), "a");

    let f = Field::parse("\t a \u{3000}, b ,c").unwrap();
    assert_eq!(f.input_field(), "a");
    assert_eq!(f.target_or_input_field(), "b");

    let f = Field::parse("a,").unwrap();
    assert_eq!(f.target_or_input_field(), "");

    assert!(matches!(Field::parse(""), Err(PipelineError::EmptyInputField)));
    assert!(matches!(Field::parse(" ,x"), Err(PipelineError::EmptyInputField)));
}

#[test]
fn law_all_missing_fields_ignored_keep_event() {
    let fields = Fields::new(vec![
        Field::new("a".to_string(), None),
        Field::new("b".to_string(), Some("c".to_string())),
    ]);
    let processor = DecolorizeProcessor::new(fields, true);
    let out = processor.exec_mut(object(vec![("x", text("\x1b[1my"))])).unwrap();
    assert_eq!(key_count(&out), 1);
    assert_eq!(bytes_of(get(&out, "x").unwrap()), "\x1b[1my".as_bytes().to_vec());
}

#[test]
fn law_unknown_keys_change_nothing() {
    let base = vec![(ystr("field"), ystr("msg")), (ystr("ignore_missing"), Yaml::Boolean(true))];
    let mut with_unknown = base.clone_pairs();
    with_unknown.insert(1, (ystr("description"), Yaml::Array(vec![Yaml::Null])));
    with_unknown.insert(0, (ystr("if"), Yaml::BadValue));
    let a = DecolorizeProcessor::try_from(&base).unwrap();
    let b = DecolorizeProcessor::try_from(&with_unknown).unwrap();
    assert_eq!(a.ignore_missing(), b.ignore_missing());
    let ea = a.exec_mut(object(vec![("msg", text("\x1b[2mz"))])).unwrap();
    let eb = b.exec_mut(object(vec![("msg", text("\x1b[2mz"))])).unwrap();
    assert_eq!(bytes_of(get(&ea, "msg").unwrap()), bytes_of(get(&eb, "msg").unwrap()));

    let bad = vec![(ystr("field"), Yaml::Integer(1))];
    let mut bad_with_unknown = bad.clone_pairs();
    bad_with_unknown.push((ystr("other"), Yaml::Null));
    assert!(DecolorizeProcessor::try_from(&bad).is_err());
    assert!(DecolorizeProcessor::try_from(&bad_with_unknown).is_err());
}

trait ClonePairs {
    fn clone_pairs(&self) -> Vec<(Yaml, Yaml)>;
}

impl ClonePairs for Vec<(Yaml, Yaml)> {
    fn clone_pairs(&self) -> Vec<(Yaml, Yaml)> {
        self.iter().map(|(k, v)| (k.deep_copy(), v.deep_copy())).collect()
    }
}

#[test]
fn law_last_ignore_missing_entry_wins() {
    let config = vec![
        (ystr("ignore_missing"), Yaml::Boolean(true)),
        (ystr("field"), ystr("a")),
        (ystr("ignore_missing"), Yaml::Boolean(false)),
    ];
    assert!(!DecolorizeProcessor::try_from(&config).unwrap().ignore_missing());
    let config = vec![(ystr("ignore_missing"), Yaml::Boolean(false)), (ystr("ignore_missing"), Yaml::Boolean(true))];
    assert!(DecolorizeProcessor::try_from(&config).unwrap().ignore_missing());
    let config = vec![(ystr("field"), ystr("a"))];
    assert!(!DecolorizeProcessor::try_from(&config).unwrap().ignore_missing());
}

#[test]
fn law_whole_run_of_several_fields() {
    let fields = Fields::new(vec![
        Field::new("a".to_string(), Some("a2".to_string())),
        Field::new("b".to_string(), None),
        Field::new("c".to_string(), Some("c2".to_string())),
    ]);
    let processor = DecolorizeProcessor::new(fields, false);
    let event = object(vec![
        ("a", text("\x1b[31mA\x1b[0m")),
        ("b", text("B\x1b[1m")),
        ("c", text("C")),
        ("d", text("\x1b[0mD")),
    ]);
    let out = processor.exec_mut(event).unwrap();
    assert_eq!(key_count(&out), 6);
    assert_eq!(bytes_of(get(&out, "a2").unwrap()), b"A".to_vec());
    assert_eq!(bytes_of(get(&out, "b").unwrap()), b"B".to_vec());
    assert_eq!(bytes_of(get(&out, "c2").unwrap()), b"C".to_vec());
    assert_eq!(bytes_of(get(&out, "a").unwrap()), "\x1b[31mA\x1b[0m".as_bytes().to_vec());
    assert_eq!(bytes_of(get(&out, "c").unwrap()), b"C".to_vec());
    assert_eq!(bytes_of(get(&out, "d").unwrap()), "\x1b[0mD".as_bytes().to_vec());
}

fn keys(v: &Value) -> Vec<String> {
    match v {
        Value::Object(entries) => entries.iter().map(|(k, _)| k.clone()).collect(),
        _ => Vec::new(),
    }
}

#[test]
fn exec_mut_keeps_keys_in_order() {
    let fields = Fields::new(vec![
        Field::new("a".to_string(), Some("a2".to_string())),
        Field::new("b".to_string(), Some("z".to_string())),
        Field::new("b".to_string(), Some("B".to_string())),
    ]);
    let processor = DecolorizeProcessor::new(fields, false);
    let event = object(vec![("a", text("\x1b[1mx")), ("b", text("y\x1b[0m"))]);
    let out = processor.exec_mut(event).unwrap();
    assert_eq!(keys(&out), vec!["B", "a", "a2", "b", "z"]);
    assert_eq!(bytes_of(get(&out, "a2").unwrap()), b"x".to_vec());
    assert_eq!(bytes_of(get(&out, "z").unwrap()), b"y".to_vec());
    assert_eq!(bytes_of(get(&out, "B").unwrap()), b"y".to_vec());
}
