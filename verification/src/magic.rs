//! Identifiers embedded in the executable.
//!
//! An identifier is a fixed-size byte buffer: the bytes of a text, then a NUL
//! byte. There is no length prefix; the text ends at the first NUL. Two such
//! buffers are compiled into the launcher, and the packer overwrites them in
//! the finished binary: the build identifier and the name of the target program.

use vstd::prelude::*;
use vstd::slice::*;
use vstd::string::*;
use vstd::utf8::*;
use crate::error::ConfigError;

verus! {

/// The buffer that holds the name of the target program inside the cache entry.
pub const TARGET_FILE_NAME_BUF: [u8; 129] = [
    116, 86, 81, 104, 104, 115, 70, 70, 108, 71, 71, 68, 51, 111, 87, 86,
    52, 108, 69, 80, 83, 84, 56, 73, 56, 70, 69, 80, 80, 53, 52, 73,
    77, 48, 113, 55, 100, 97, 101, 115, 52, 69, 49, 121, 51, 112, 50, 85,
    50, 119, 108, 74, 82, 89, 109, 87, 109, 106, 80, 89, 102, 107, 104, 90,
    48, 80, 108, 84, 49, 52, 76, 115, 48, 106, 56, 102, 100, 68, 107, 111,
    106, 51, 51, 102, 50, 66, 108, 82, 74, 97, 118, 76, 106, 51, 109, 87,
    71, 105, 98, 74, 115, 71, 116, 53, 117, 76, 65, 116, 114, 67, 68, 116,
    118, 120, 105, 107, 90, 56, 85, 88, 50, 109, 81, 68, 67, 114, 103, 69,
    0,
];

/// The buffer that holds the build identifier.
pub const TARGET_UID_BUF: [u8; 21] = [
    68, 82, 49, 80, 87, 115, 74, 115, 77, 54, 75, 120, 78, 98, 110, 103,
    57, 89, 51, 56, 0,
];

/// `at` is the place of the first NUL byte of `bytes`.
pub open spec fn is_terminator(bytes: Seq<u8>, at: int) -> bool {
    &&& 0 <= at < bytes.len()
    &&& bytes[at] == 0
    &&& forall|j: int| 0 <= j < at ==> bytes[j] != 0
}

/// `bytes` holds a NUL byte.
pub open spec fn has_terminator(bytes: Seq<u8>) -> bool {
    bytes.contains(0u8)
}

/// The place of the first NUL byte of `bytes`, where there is one.
pub open spec fn terminator(bytes: Seq<u8>) -> int {
    choose|at: int| is_terminator(bytes, at)
}

/// The bytes of `bytes` before its first NUL byte.
pub open spec fn text_bytes(bytes: Seq<u8>) -> Seq<u8> {
    bytes.take(terminator(bytes))
}

/// `bytes` is a well-formed identifier: it is terminated, and what stands
/// before the terminator is valid UTF-8.
pub open spec fn is_identifier(bytes: Seq<u8>) -> bool {
    has_terminator(bytes) && valid_utf8(text_bytes(bytes))
}

/// The text of a well-formed identifier, without its terminator.
pub open spec fn identifier_text(bytes: Seq<u8>) -> Seq<char> {
    decode_utf8(text_bytes(bytes))
}

/// `outcome` is what decoding the buffer `bytes`, known as `name`, gives:
/// the text of a well-formed identifier, and otherwise the error that says
/// what is wrong with the buffer and names it.
pub open spec fn is_decoding(name: Seq<char>, bytes: Seq<u8>, outcome: Result<String, ConfigError>) -> bool {
    match outcome {
        Ok(text) => is_identifier(bytes) && text@ == identifier_text(bytes),
        Err(ConfigError::MissingTerminator { name: named }) => !has_terminator(bytes) && named@ == name,
        Err(ConfigError::InvalidEncoding { name: named }) => {
            &&& has_terminator(bytes)
            &&& !valid_utf8(text_bytes(bytes))
            &&& named@ == name
        },
        Err(ConfigError::NoDataDir) => false,
    }
}

/// A NUL byte with none before it is the terminator.
pub proof fn lemma_terminator_is_first_nul(bytes: Seq<u8>, at: int)
    requires
        is_terminator(bytes, at),
    ensures
        has_terminator(bytes),
        terminator(bytes) == at,
        text_bytes(bytes) == bytes.take(at),
{
    let chosen = terminator(bytes);
    assert(is_terminator(bytes, chosen));
    if chosen < at {
        assert(bytes[chosen] != 0);
    } else if at < chosen {
        assert(bytes[at] != 0);
    }
}

/// The characters that a run of ASCII bytes stands for, one for each byte.
pub open spec fn ascii_text(bytes: Seq<u8>) -> Seq<char> {
    Seq::new(bytes.len(), |j: int| bytes[j] as char)
}

/// A terminated buffer whose text is plain ASCII is a well-formed identifier,
/// and its text is those same characters.
pub proof fn lemma_ascii_identifier(bytes: Seq<u8>, at: int)
    requires
        is_terminator(bytes, at),
        forall|j: int| 0 <= j < at ==> bytes[j] < 0x80,
    ensures
        is_identifier(bytes),
        identifier_text(bytes) == ascii_text(bytes.take(at)),
{
    lemma_terminator_is_first_nul(bytes, at);
    let text = ascii_text(bytes.take(at));
    assert(is_ascii_chars(text));
    is_ascii_chars_encode_utf8(text);
    assert(encode_utf8(text) =~= bytes.take(at));
    encode_utf8_valid_utf8(text);
    encode_utf8_decode_utf8(text);
}

/// `core::str::from_utf8`: the bytes are accepted exactly when they are valid
/// UTF-8, and the string slice that comes back is made of those same bytes.
#[verifier::external_body]
fn utf8_text<'a>(bytes: &'a [u8]) -> (text: Option<&'a str>)
    ensures
        text is Some <==> valid_utf8(bytes@),
        text matches Some(s) ==> s.spec_bytes() == bytes@,
{
    core::str::from_utf8(bytes).ok()
}

/// Decodes the embedded identifier `magic`, known as `magic_name` in
/// diagnostics: the text before its first NUL byte.
pub fn read_magic(magic_name: &str, magic: &[u8]) -> (outcome: Result<String, ConfigError>)
    ensures
        is_decoding(magic_name@, magic@, outcome),
        !magic@.contains(0u8) ==> outcome matches Err(ConfigError::MissingTerminator { .. }),
{
    let mut at: usize = 0;
    while at < magic.len() && magic[at] != 0
        invariant
            at <= magic.len(),
            forall|j: int| 0 <= j < at ==> magic@[j] != 0,
        decreases magic.len() - at,
    {
        at += 1;
    }
    if at == magic.len() {
        return Err(ConfigError::MissingTerminator { name: String::from_str(magic_name) });
    }
    proof {
        lemma_terminator_is_first_nul(magic@, at as int);
    }
    let text = slice_subrange(magic, 0, at);
    match utf8_text(text) {
        Some(s) => {
            proof {
                encode_utf8_decode_utf8(s@);
            }
            Ok(String::from_str(s))
        },
        None => Err(ConfigError::InvalidEncoding { name: String::from_str(magic_name) }),
    }
}

/// The build identifier: the text in [`TARGET_UID_BUF`].
pub fn build_uid() -> (outcome: Result<String, ConfigError>)
    ensures
        is_decoding("TARGET_UID_BUF"@, TARGET_UID_BUF@, outcome),
{
    let buf = TARGET_UID_BUF;
    read_magic("TARGET_UID_BUF", buf.as_slice())
}

/// The name of the target program: the text in [`TARGET_FILE_NAME_BUF`].
pub fn target_file_name() -> (outcome: Result<String, ConfigError>)
    ensures
        is_decoding("TARGET_FILE_NAME_BUF"@, TARGET_FILE_NAME_BUF@, outcome),
{
    let buf = TARGET_FILE_NAME_BUF;
    read_magic("TARGET_FILE_NAME_BUF", buf.as_slice())
}

} // verus!
