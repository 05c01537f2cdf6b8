use warp_runner::error::ConfigError;
use warp_runner::magic::{
    build_uid, read_magic, target_file_name, TARGET_FILE_NAME_BUF, TARGET_UID_BUF,
};

#[test]
fn terminated_text_is_decoded_without_its_terminator() {
    assert_eq!(read_magic("ID", b"abc\0"), Ok("abc".to_string()));
}

#[test]
fn buffer_without_nul_has_no_terminator() {
    assert_eq!(
        read_magic("ID", b"abc"),
        Err(ConfigError::MissingTerminator { name: "ID".to_string() })
    );
}

#[test]
fn empty_buffer_has_no_terminator() {
    assert_eq!(
        read_magic("EMPTY", b""),
        Err(ConfigError::MissingTerminator { name: "EMPTY".to_string() })
    );
}

#[test]
fn lone_terminator_is_the_empty_text() {
    assert_eq!(read_magic("ID", b"\0"), Ok(String::new()));
}

#[test]
fn text_ends_at_the_first_terminator() {
    assert_eq!(read_magic("ID", b"ab\0cd\0"), Ok("ab".to_string()));
}

#[test]
fn bytes_after_the_terminator_are_not_decoded() {
    assert_eq!(read_magic("ID", &[b'a', 0, 0xff, 0xfe]), Ok("a".to_string()));
}

#[test]
fn multibyte_text_is_decoded() {
    let mut buffer = "h\u{e9}llo \u{4e16}\u{754c} \u{1f980}".as_bytes().to_vec();
    buffer.push(0);
    assert_eq!(
        read_magic("ID", &buffer),
        Ok("h\u{e9}llo \u{4e16}\u{754c} \u{1f980}".to_string())
    );
}

#[test]
fn stray_byte_is_invalid_encoding() {
    assert_eq!(
        read_magic("ID", &[b'a', 0xff, b'b', 0]),
        Err(ConfigError::InvalidEncoding { name: "ID".to_string() })
    );
}

#[test]
fn overlong_form_is_invalid_encoding() {
    assert_eq!(
        read_magic("ID", &[0xc0, 0x80, 0]),
        Err(ConfigError::InvalidEncoding { name: "ID".to_string() })
    );
}

#[test]
fn surrogate_is_invalid_encoding() {
    assert_eq!(
        read_magic("ID", &[0xed, 0xa0, 0x80, 0]),
        Err(ConfigError::InvalidEncoding { name: "ID".to_string() })
    );
}

#[test]
fn character_cut_by_the_terminator_is_invalid_encoding() {
    assert_eq!(
        read_magic("ID", &[0xe4, 0xb8, 0, 0x96]),
        Err(ConfigError::InvalidEncoding { name: "ID".to_string() })
    );
}

#[test]
fn missing_terminator_wins_over_invalid_encoding() {
    assert_eq!(
        read_magic("ID", &[0xff, 0xfe]),
        Err(ConfigError::MissingTerminator { name: "ID".to_string() })
    );
}

#[test]
fn embedded_build_identifier_is_decoded() {
    assert_eq!(build_uid(), Ok("DR1PWsJsM6KxNbng9Y38".to_string()));
}

#[test]
fn embedded_target_name_is_decoded() {
    let expected = "tVQhhsFFlGGD3oWV4lEPST8I8FEPP54IM0q7daes4E1y3p2U2wlJRYmWmjPYfkhZ0PlT14Ls\
                    0j8fdDkoj33f2BlRJavLj3mWGibJsGt5uLAtrCDtvxikZ8UX2mQDCrgE";
    assert_eq!(expected.len(), 128);
    assert_eq!(target_file_name(), Ok(expected.to_string()));
}

#[test]
fn embedded_buffers_end_in_their_only_terminator() {
    assert_eq!(TARGET_UID_BUF.len(), 21);
    assert_eq!(TARGET_UID_BUF.iter().position(|byte| *byte == 0), Some(20));
    assert_eq!(TARGET_FILE_NAME_BUF.len(), 129);
    assert_eq!(TARGET_FILE_NAME_BUF.iter().position(|byte| *byte == 0), Some(128));
}

#[test]
fn embedded_identifiers_are_what_read_magic_finds() {
    assert_eq!(build_uid(), read_magic("TARGET_UID_BUF", &TARGET_UID_BUF));
    assert_eq!(target_file_name(), read_magic("TARGET_FILE_NAME_BUF", &TARGET_FILE_NAME_BUF));
}

#[test]
fn config_errors_name_the_identifier() {
    assert_eq!(
        ConfigError::MissingTerminator { name: "TARGET_UID_BUF".to_string() }.message(),
        "TARGET_UID_BUF has no NUL terminator"
    );
    assert_eq!(
        ConfigError::InvalidEncoding { name: "TARGET_UID_BUF".to_string() }.message(),
        "Can't convert TARGET_UID_BUF CStr to str"
    );
    assert_eq!(ConfigError::NoDataDir.message(), "No data local dir found");
}
