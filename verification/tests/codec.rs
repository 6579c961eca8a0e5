//! The codec, frame by frame: every tag, every error, the edges of every
//! range.

use touch_relay::codec::{decode_doc, parse_frame, CodecError, Command, MouseButton, NamedKey};
use touch_relay::frame::{Doc, Elem};

#[test]
fn mouse_move_frame_parses() {
    let r = parse_frame("[\"m\", 3, -4]");
    assert!(matches!(r, Ok(Command::MouseMove { dx: 3, dy: -4 })));
}

#[test]
fn mouse_move_extra_elements_are_ignored() {
    let r = parse_frame("[\"m\", 1, 2, 99]");
    assert!(matches!(r, Ok(Command::MouseMove { dx: 1, dy: 2 })));
}

#[test]
fn mouse_move_accepts_the_full_signed_32_bit_range() {
    let r = parse_frame("[\"m\", 2147483647, -2147483648]");
    assert!(matches!(r, Ok(Command::MouseMove { dx: 2147483647, dy: -2147483648 })));
}

#[test]
fn mouse_move_rejects_a_delta_beyond_32_bits() {
    let r = parse_frame("[\"m\", 2147483648, 0]");
    assert!(matches!(r, Err(CodecError::TypeError)));
}

#[test]
fn mouse_move_rejects_a_string_delta() {
    let r = parse_frame("[\"m\", \"3\", 4]");
    assert!(matches!(r, Err(CodecError::TypeError)));
}

#[test]
fn mouse_move_rejects_a_fractional_delta() {
    let r = parse_frame("[\"m\", 1.5, 0]");
    assert!(matches!(r, Err(CodecError::TypeError)));
}

#[test]
fn mouse_move_with_too_few_arguments_is_an_arity_error() {
    let r = parse_frame("[\"m\", 3]");
    assert!(matches!(r, Err(CodecError::ArityError)));
}

#[test]
fn left_button_click_parses() {
    let r = parse_frame("[\"b\", \"l\", 2]");
    assert!(matches!(r, Ok(Command::ButtonClick { button: MouseButton::Left, count: 2 })));
}

#[test]
fn right_button_click_parses() {
    let r = parse_frame("[\"b\", \"r\", 1]");
    assert!(matches!(r, Ok(Command::ButtonClick { button: MouseButton::Right, count: 1 })));
}

#[test]
fn click_count_zero_is_accepted() {
    let r = parse_frame("[\"b\", \"l\", 0]");
    assert!(matches!(r, Ok(Command::ButtonClick { button: MouseButton::Left, count: 0 })));
}

#[test]
fn unknown_button_name_is_rejected() {
    let r = parse_frame("[\"b\", \"x\", 1]");
    assert!(matches!(r, Err(CodecError::UnknownButtonName)));
}

#[test]
fn negative_click_count_is_a_type_error() {
    let r = parse_frame("[\"b\", \"l\", -1]");
    assert!(matches!(r, Err(CodecError::TypeError)));
}

#[test]
fn click_count_beyond_32_bits_is_a_type_error() {
    let r = parse_frame("[\"b\", \"l\", 4294967296]");
    assert!(matches!(r, Err(CodecError::TypeError)));
}

#[test]
fn numeric_button_name_is_a_type_error() {
    let r = parse_frame("[\"b\", 1, 1]");
    assert!(matches!(r, Err(CodecError::TypeError)));
}

#[test]
fn bad_count_is_reported_before_the_button_name() {
    let r = parse_frame("[\"b\", \"x\", \"y\"]");
    assert!(matches!(r, Err(CodecError::TypeError)));
}

#[test]
fn click_with_too_few_arguments_is_an_arity_error() {
    let r = parse_frame("[\"b\", \"l\"]");
    assert!(matches!(r, Err(CodecError::ArityError)));
}

#[test]
fn wheel_frame_parses() {
    let r = parse_frame("[\"w\", -7]");
    assert!(matches!(r, Ok(Command::Wheel { dy: -7 })));
}

#[test]
fn wheel_without_amount_is_an_arity_error() {
    let r = parse_frame("[\"w\"]");
    assert!(matches!(r, Err(CodecError::ArityError)));
}

#[test]
fn text_frame_carries_the_full_string() {
    let r = parse_frame("[\"t\", \"hello world\"]");
    match r {
        Ok(Command::TextInput { text }) => assert_eq!(text, "hello world"),
        other => panic!("unexpected result: {:?}", other),
    }
}

#[test]
fn text_frame_keeps_non_ascii_characters() {
    let r = parse_frame("[\"t\", \"héllo ✓\"]");
    match r {
        Ok(Command::TextInput { text }) => assert_eq!(text, "héllo ✓"),
        other => panic!("unexpected result: {:?}", other),
    }
}

#[test]
fn numeric_text_is_a_type_error() {
    let r = parse_frame("[\"t\", 5]");
    assert!(matches!(r, Err(CodecError::TypeError)));
}

#[test]
fn text_without_content_is_an_arity_error() {
    let r = parse_frame("[\"t\"]");
    assert!(matches!(r, Err(CodecError::ArityError)));
}

#[test]
fn escape_key_parses() {
    let r = parse_frame("[\"k\", \"Escape\"]");
    assert!(matches!(r, Ok(Command::KeyPress { key: NamedKey::Escape })));
}

#[test]
fn page_up_key_parses() {
    let r = parse_frame("[\"k\", \"PageUp\"]");
    assert!(matches!(r, Ok(Command::KeyPress { key: NamedKey::PageUp })));
}

#[test]
fn page_down_key_parses() {
    let r = parse_frame("[\"k\", \"PageDown\"]");
    assert!(matches!(r, Ok(Command::KeyPress { key: NamedKey::PageDown })));
}

#[test]
fn return_key_parses() {
    let r = parse_frame("[\"k\", \"Return\"]");
    assert!(matches!(r, Ok(Command::KeyPress { key: NamedKey::Return })));
}

#[test]
fn delete_maps_to_the_backspace_key_identifier() {
    let r = parse_frame("[\"k\", \"Delete\"]");
    assert!(matches!(r, Ok(Command::KeyPress { key: NamedKey::Backspace })));
}

#[test]
fn unknown_key_name_is_rejected() {
    let r = parse_frame("[\"k\", \"F1\"]");
    assert!(matches!(r, Err(CodecError::UnknownKeyName)));
}

#[test]
fn numeric_key_name_is_a_type_error() {
    let r = parse_frame("[\"k\", 27]");
    assert!(matches!(r, Err(CodecError::TypeError)));
}

#[test]
fn key_without_name_is_an_arity_error() {
    let r = parse_frame("[\"k\"]");
    assert!(matches!(r, Err(CodecError::ArityError)));
}

#[test]
fn ping_parses_and_never_errors() {
    let r = parse_frame("[\"ping\"]");
    assert!(matches!(r, Ok(Command::Ping)));
}

#[test]
fn ping_ignores_trailing_elements() {
    let r = parse_frame("[\"ping\", 1, \"x\"]");
    assert!(matches!(r, Ok(Command::Ping)));
}

#[test]
fn unparseable_text_is_malformed_payload() {
    let r = parse_frame("not json at all");
    assert!(matches!(r, Err(CodecError::MalformedPayload)));
}

#[test]
fn truncated_json_is_malformed_payload() {
    let r = parse_frame("[\"m\", 1,");
    assert!(matches!(r, Err(CodecError::MalformedPayload)));
}

#[test]
fn an_object_is_not_an_array() {
    let r = parse_frame("{\"not\":\"an array\"}");
    assert!(matches!(r, Err(CodecError::NotAnArray)));
}

#[test]
fn a_bare_number_is_not_an_array() {
    let r = parse_frame("42");
    assert!(matches!(r, Err(CodecError::NotAnArray)));
}

#[test]
fn an_empty_array_is_rejected() {
    let r = parse_frame("[]");
    assert!(matches!(r, Err(CodecError::EmptyArray)));
}

#[test]
fn a_numeric_tag_is_a_missing_tag() {
    let r = parse_frame("[1, 2]");
    assert!(matches!(r, Err(CodecError::MissingTag)));
}

#[test]
fn an_unknown_tag_is_an_unknown_command() {
    let r = parse_frame("[\"z\", 1]");
    assert!(matches!(r, Err(CodecError::UnknownCommand)));
}

#[test]
fn decode_doc_reads_a_built_document() {
    let d = Doc::Arr(vec![Elem::Str("m".to_string()), Elem::Int(10), Elem::Int(-20)]);
    let r = decode_doc(&d);
    assert!(matches!(r, Ok(Command::MouseMove { dx: 10, dy: -20 })));
}

#[test]
fn decode_doc_reports_malformed_and_non_array_documents() {
    assert!(matches!(decode_doc(&Doc::Malformed), Err(CodecError::MalformedPayload)));
    assert!(matches!(decode_doc(&Doc::NotArray), Err(CodecError::NotAnArray)));
    assert!(matches!(decode_doc(&Doc::Arr(vec![])), Err(CodecError::EmptyArray)));
}

#[test]
fn decode_doc_rejects_an_other_element_where_a_number_is_needed() {
    let d = Doc::Arr(vec![Elem::Str("w".to_string()), Elem::Other]);
    assert!(matches!(decode_doc(&d), Err(CodecError::TypeError)));
}

#[test]
fn nested_array_arguments_are_a_type_error() {
    let r = parse_frame("[\"m\", [1], 2]");
    assert!(matches!(r, Err(CodecError::TypeError)));
}
