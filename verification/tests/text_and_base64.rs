use protobuf::well_known_types::any::Any;
use protobuf::Message;

use utransport_socket::b64::{base64_to_protobuf_bytes, bytes_to_base64};
use utransport_socket::text::{
    convert_bytes_to_string, convert_str_to_bytes, escape_control_character,
    sanitize_input_string,
};

#[test]
fn test_convert_bytes_to_string() {
    let data = vec![104, 101, 108, 108, 111]; // "hello" in bytes
    let result = convert_bytes_to_string(&data);
    assert_eq!(result, "hello");
}

#[test]
fn test_convert_str_to_bytes() {
    let string = "hello";
    let result = convert_str_to_bytes(string);
    assert_eq!(result, vec![104, 101, 108, 108, 111]); // "hello" in bytes
}

#[test]
fn invalid_bytes_read_as_replacement_character() {
    let data = vec![0xFF];
    let result = convert_bytes_to_string(&data);
    assert_eq!(result, "\u{FFFD}");
}

#[test]
fn escape_formats_four_hex_digits() {
    assert_eq!(escape_control_character('\n'), "\\u000a");
    assert_eq!(escape_control_character('\x00'), "\\u0000");
    assert_eq!(escape_control_character('\x1F'), "\\u001f");
}

#[test]
fn sanitize_escapes_control_characters_only() {
    assert_eq!(sanitize_input_string("hello"), "hello");
    assert_eq!(sanitize_input_string("a\x01b"), "a\\u0001b");
    assert_eq!(sanitize_input_string("\n\t"), "\\u000a\\u0009");
    assert_eq!(sanitize_input_string(""), "");
}

#[test]
fn base64_encodes_exact_text() {
    assert_eq!(bytes_to_base64(&vec![1, 2, 3]), "AQID");
    assert_eq!(bytes_to_base64(&Vec::new()), "");
}

#[test]
fn base64_decodes_what_it_encoded() {
    assert_eq!(base64_to_protobuf_bytes("AQID").unwrap(), vec![1, 2, 3]);
    assert!(base64_to_protobuf_bytes("!!!").is_err());
}

#[test]
fn test_protobuf_to_base64_and_base64_to_protobuf_bytes() {
    let mut any = Any::new();
    any.type_url = "example.com/MyMessage".to_string();
    any.value = vec![1, 2, 3, 4, 5];

    let serialized = any.write_to_bytes().unwrap();
    let base64_str = bytes_to_base64(&serialized);
    let decoded_bytes = base64_to_protobuf_bytes(&base64_str).unwrap();

    assert_eq!(any.write_to_bytes().unwrap(), decoded_bytes);
}
