//! The masked diagnostic rendering: a message's debug text with
//! obfuscated fields replaced and hidden fields dropped.

use protoactor::masked::{
    enum_variant_name, render_named_struct, render_tuple_struct, render_unit, text_of_i64,
    text_of_str, text_of_u64, FieldMode, NamedField, TupleField,
};

fn named(name: &str, value: String, mode: FieldMode) -> NamedField {
    NamedField {
        name: name.to_string(),
        value,
        mode,
    }
}

fn tuple(value: String, mode: FieldMode) -> TupleField {
    TupleField { value, mode }
}

#[test]
fn test_message_derive() {
    let test_message = vec![named("content", text_of_str("42"), FieldMode::Shown)];
    assert_eq!(
        "TestMessage { content: \"42\" }".to_string(),
        render_named_struct("TestMessage", &test_message)
    );
}

#[test]
fn test_named_struct_message_derive_with_obfuscated_and_response_type() {
    let test_message = vec![
        named("hidden", text_of_str("42"), FieldMode::Obfuscated),
        named("visible", text_of_str("42"), FieldMode::Shown),
        // below field will not be printed because it is marked as hidden
        named("invisible", text_of_str("42"), FieldMode::Hidden),
    ];
    assert_eq!(
        "TestRequest2 { hidden: \"<obfuscated>\", visible: \"42\" }".to_string(),
        render_named_struct("TestRequest2", &test_message)
    );
}

#[test]
fn test_unnamed_struct_message_derive_with_obfuscated_and_response_type() {
    let test_message = vec![
        tuple(text_of_str("42"), FieldMode::Obfuscated),
        tuple(text_of_str("42"), FieldMode::Shown),
    ];
    assert_eq!(
        "UnNamedStruct(\"<obfuscated>\", \"42\")".to_string(),
        render_tuple_struct("UnNamedStruct", &test_message)
    );
}

#[test]
fn test_enum_message_derive_with_obfuscated_and_response_type() {
    let test_message = vec![
        named("hidden", text_of_u64(42), FieldMode::Obfuscated),
        named("visible", text_of_i64(42), FieldMode::Shown),
    ];
    assert_eq!(
        "TestEnum::B { hidden: \"<obfuscated>\", visible: 42 }".to_string(),
        render_named_struct(enum_variant_name("TestEnum", "B").as_str(), &test_message)
    );

    let test_message = vec![
        tuple(text_of_u64(42), FieldMode::Shown),
        tuple(text_of_i64(42), FieldMode::Shown),
    ];
    assert_eq!(
        "TestEnum::C(42, 42)".to_string(),
        render_tuple_struct(enum_variant_name("TestEnum", "C").as_str(), &test_message)
    );

    let test_message = enum_variant_name("TestEnum", "A");
    assert_eq!("TestEnum::A".to_string(), render_unit(test_message.as_str()));
}

#[test]
fn renders_bare_name_when_every_field_is_hidden() {
    let fields = vec![named("secret", text_of_str("x"), FieldMode::Hidden)];
    assert_eq!("Opaque".to_string(), render_named_struct("Opaque", &fields));
    let fields = vec![tuple(text_of_str("x"), FieldMode::Hidden)];
    assert_eq!("Opaque".to_string(), render_tuple_struct("Opaque", &fields));
}

#[test]
fn renders_decimal_values() {
    assert_eq!("0", text_of_u64(0).as_str());
    assert_eq!("18446744073709551615", text_of_u64(u64::MAX).as_str());
    assert_eq!("-42", text_of_i64(-42).as_str());
    assert_eq!("-9223372036854775808", text_of_i64(i64::MIN).as_str());
    assert_eq!("9223372036854775807", text_of_i64(i64::MAX).as_str());
}

#[test]
fn quotes_and_escapes_string_values() {
    assert_eq!("\"\"", text_of_str("").as_str());
    assert_eq!("\"a \\\"b\\\" \\\\c\"", text_of_str("a \"b\" \\c").as_str());
}
