use audials_playlist_exporter::json::{parse_json, JsonKind, JsonNumber, JsonSyntaxError, JsonValue, ParseCategory};
use audials_playlist_exporter::text::{array_from_parsed, decode_data_file, FileError};

#[test]
fn decodes_array_on_second_line() {
    let r = decode_data_file("marker line\n[1, \"a\", null]\n");
    assert_eq!(
        r,
        Ok(vec![
            JsonValue::Number(JsonNumber::Unsigned(1)),
            JsonValue::Str("a".to_string()),
            JsonValue::Null,
        ])
    );
}

#[test]
fn decodes_crlf_lines() {
    assert_eq!(decode_data_file("marker\r\n[true]\r\nrest"), Ok(vec![JsonValue::Bool(true)]));
}

#[test]
fn second_line_without_line_feed() {
    assert_eq!(decode_data_file("marker\n[]"), Ok(vec![]));
}

#[test]
fn fewer_than_two_lines_is_shape_error() {
    assert_eq!(decode_data_file(""), Err(FileError::Shape));
    assert_eq!(decode_data_file("marker"), Err(FileError::Shape));
    assert_eq!(decode_data_file("marker\n"), Err(FileError::Shape));
}

#[test]
fn syntax_error_reports_position() {
    assert_eq!(
        decode_data_file("marker\nx"),
        Err(FileError::Parse(JsonSyntaxError { line: 1, column: 1, category: ParseCategory::Syntax }))
    );
}

#[test]
fn early_end_reports_eof() {
    match decode_data_file("marker\n[1,") {
        Err(FileError::Parse(e)) => {
            assert_eq!(e.line, 1);
            assert_eq!(e.category, ParseCategory::Eof);
        }
        other => panic!("unexpected {:?}", other),
    }
}

#[test]
fn non_array_reports_kind() {
    assert_eq!(decode_data_file("m\n{\"a\": 1}"), Err(FileError::NotArray(JsonKind::Object)));
    assert_eq!(decode_data_file("m\nnull"), Err(FileError::NotArray(JsonKind::Null)));
    assert_eq!(decode_data_file("m\n\"s\""), Err(FileError::NotArray(JsonKind::Str)));
    assert_eq!(decode_data_file("m\n1.5"), Err(FileError::NotArray(JsonKind::Number)));
    assert_eq!(decode_data_file("m\nfalse"), Err(FileError::NotArray(JsonKind::Boolean)));
}

#[test]
fn array_from_parsed_cases() {
    assert_eq!(array_from_parsed(Ok(JsonValue::Array(vec![JsonValue::Null]))), Ok(vec![JsonValue::Null]));
    assert_eq!(array_from_parsed(Ok(JsonValue::Bool(false))), Err(FileError::NotArray(JsonKind::Boolean)));
    let e = JsonSyntaxError { line: 1, column: 7, category: ParseCategory::Data };
    assert_eq!(array_from_parsed(Err(e)), Err(FileError::Parse(e)));
}

#[test]
fn parse_json_builds_model() {
    assert_eq!(
        parse_json("{\"b\": -3, \"a\": [2.5]}"),
        Ok(JsonValue::Object(vec![
            ("a".to_string(), JsonValue::Array(vec![JsonValue::Number(JsonNumber::Fractional)])),
            ("b".to_string(), JsonValue::Number(JsonNumber::Negative(-3))),
        ]))
    );
}
