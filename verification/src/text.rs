//! Text as the standard library holds it: UTF-8 bytes on one side, a
//! sequence of characters on the other.

use vstd::prelude::*;
use vstd::string::StringExecFns;
use vstd::utf8::*;
use crate::error::{starts_with, TransformError};

verus! {

/// The error of `core::str::from_utf8`.
#[verifier::external_type_specification]
#[verifier::external_body]
pub struct ExUtf8Error(core::str::Utf8Error);

/// `core::str::from_utf8` succeeds exactly on well-formed UTF-8, and the
/// text it returns holds the characters that the bytes encode.
pub assume_specification[ core::str::from_utf8 ](
    bytes: &[u8],
) -> (decoded: Result<&str, core::str::Utf8Error>)
    ensures
        decoded is Ok <==> valid_utf8(bytes@),
        decoded matches Ok(text) ==> text@ == decode_utf8(bytes@),
;

/// `String::push` appends one character.
pub assume_specification[ std::string::String::push ](
    text: &mut std::string::String,
    c: char,
)
    ensures
        final(text)@ == old(text)@.push(c),
;

/// How the report of bytes that are not UTF-8 begins. What follows is the
/// standard library's own description of the fault.
pub open spec fn encoding_failure_prefix() -> Seq<char> {
    "unable to parse data as UTF-8: "@
}

/// Reads `bytes` as UTF-8 text, without copying them.
pub fn convert_bytes_to_string(bytes: &Vec<u8>) -> (converted: Result<&str, TransformError>)
    ensures
        match converted {
            Ok(text) => valid_utf8(bytes@) && text@ == decode_utf8(bytes@),
            Err(error) => !valid_utf8(bytes@) && starts_with(
                error@,
                encoding_failure_prefix(),
            ),
        },
{
    match core::str::from_utf8(bytes.as_slice()) {
        Ok(text) => Ok(text),
        Err(fault) => {
            let mut message: String = "unable to parse data as UTF-8: ".to_owned();
            let detail: String = fault.to_string();
            message.append(detail.as_str());
            assert(message@.subrange(0, encoding_failure_prefix().len() as int)
                == encoding_failure_prefix());
            Err(TransformError::Generic(message))
        },
    }
}

} // verus!
