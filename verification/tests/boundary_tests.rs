use libnoir_ffi::boundary::{
    bb_init_srs_from_bytecode, cstr_to_string, envelope, err, ok, ByteBuffer,
};
use libnoir_ffi::error::{Error, ErrorKind};

#[test]
fn ok_hands_the_bytes_over() {
    let result = ok(vec![1, 2, 3]);
    assert!(result.ok);
    assert!(result.err.is_none());
    assert!(!result.data.is_null());
    assert_eq!(result.data.len(), 3);
    assert_eq!(result.data.bytes, Some(vec![1, 2, 3]));
}

#[test]
fn ok_of_nothing_is_not_the_null_buffer() {
    let result = ok(Vec::new());
    assert!(result.ok);
    assert!(!result.data.is_null());
    assert_eq!(result.data.len(), 0);
}

#[test]
fn err_carries_the_message_and_no_buffer() {
    let result = err("it broke".to_string());
    assert!(!result.ok);
    assert_eq!(result.err.as_deref(), Some("it broke"));
    assert!(result.data.is_null());
    assert_eq!(result.data.len(), 0);
}

#[test]
fn err_with_a_zero_byte_falls_back() {
    let result = err("it\0broke".to_string());
    assert!(!result.ok);
    assert_eq!(result.err.as_deref(), Some("Unknown error"));
    assert_eq!(err("\0".to_string()).err.as_deref(), Some("Unknown error"));
    assert_eq!(err("end\0".to_string()).err.as_deref(), Some("Unknown error"));
}

#[test]
fn err_of_an_empty_message_is_kept() {
    assert_eq!(err(String::new()).err.as_deref(), Some(""));
}

#[test]
fn err_keeps_every_message_without_a_zero_byte() {
    for text in ["plain", "", "a\0b", "\0", "ünïcödé", "tab\tnew\nline"] {
        let expected = if text.as_bytes().contains(&0) {
            "Unknown error".to_string()
        } else {
            text.to_string()
        };
        assert_eq!(err(text.to_string()).err, Some(expected));
    }
}

#[test]
fn null_buffer_owns_nothing() {
    let buffer = ByteBuffer::null();
    assert!(buffer.is_null());
    assert_eq!(buffer.len(), 0);
    assert!(buffer.bytes.is_none());
}

#[test]
fn envelope_of_a_success_is_ok() {
    let result = envelope(Ok(vec![4, 5]));
    assert!(result.ok);
    assert_eq!(result.data.bytes, Some(vec![4, 5]));
    assert!(result.err.is_none());
}

#[test]
fn envelope_of_a_failure_carries_its_message() {
    let result = envelope(Err(Error::UnexpectedResponse));
    assert!(!result.ok);
    assert_eq!(result.err.as_deref(), Some("Unexpected response"));
    assert!(result.data.is_null());
    let result = envelope(Err(Error::Backend("a\0b".to_string())));
    assert_eq!(result.err.as_deref(), Some("Unknown error"));
}

#[test]
fn init_returns_an_empty_success() {
    for argument in [None, Some(&b"anything"[..]), Some(&[0xff, 0xfe][..])] {
        let result = bb_init_srs_from_bytecode(argument);
        assert!(result.ok);
        assert!(result.err.is_none());
        assert_eq!(result.data.bytes, Some(Vec::new()));
    }
}

#[test]
fn absent_text_is_a_null_input() {
    let fault = cstr_to_string(None).unwrap_err();
    assert!(matches!(fault, Error::NullInput));
    assert_eq!(fault.kind(), ErrorKind::NullInput);
    assert_eq!(fault.message(), "null pointer");
}

#[test]
fn text_is_read_from_utf8() {
    assert_eq!(cstr_to_string(Some(b"hello")).unwrap(), "hello");
    assert_eq!(cstr_to_string(Some("ünï".as_bytes())).unwrap(), "ünï");
    assert_eq!(cstr_to_string(Some(b"")).unwrap(), "");
}

#[test]
fn text_that_is_not_utf8_is_rejected() {
    let fault = cstr_to_string(Some(&[0x66, 0xff, 0x6f])).unwrap_err();
    assert!(matches!(fault, Error::InvalidUtf8(_)));
    assert_eq!(fault.kind(), ErrorKind::Parse);
    let expected = std::str::from_utf8(&[0x66, 0xff, 0x6f]).unwrap_err().to_string();
    assert_eq!(fault.message(), expected);
}
