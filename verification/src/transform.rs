//! The three transformations: overwrite, obfuscate, mask.
//!
//! Each of them checks the request, reads what the path addresses, works out
//! the text to put there, and returns the whole document with that text in
//! the value's place. The request is never changed.

use vstd::prelude::*;
use vstd::string::StringExecFns;
use vstd::utf8::*;
use crate::accessor::{
    content_follows_text,
    get_content,
    json_content,
    json_lookup,
    json_valid,
    lemma_replacement_spares_the_rest,
    overwritten,
    Kind,
    Value,
    ValueView,
};
use crate::digest::{
    digest_hex,
    digest_label,
    is_hex_digest,
    lemma_literal_holds_digest,
    obfuscated_literal,
    obfuscated_text,
    sha256_hex,
};
use crate::error::TransformError;
use crate::masking::{
    mask_style,
    masked,
    masked_literal,
    masked_text,
    quoted,
    style_for,
    MaskStyle,
};
use crate::request::{Request, RequestView};
use crate::text::encoding_failure_prefix;
use crate::validate::{failed_check, find_target, ValidationError};

verus! {

/// The three things that can be done to a value.
#[derive(Clone, Copy, Debug, PartialEq, Eq, Structural)]
pub enum Operation {
    Overwrite,
    Obfuscate,
    Mask,
}

impl Operation {
    /// How the report begins when the document cannot be written.
    pub open spec fn failure_prefix(self) -> Seq<char> {
        match self {
            Operation::Overwrite => "unable to overwrite data: "@,
            Operation::Obfuscate => "unable to obfuscate data: "@,
            Operation::Mask => "unable to mask data: "@,
        }
    }

    /// The prefix as text.
    pub fn failure_prefix_text(self) -> (prefix: &'static str)
        ensures
            prefix@ == self.failure_prefix(),
    {
        match self {
            Operation::Overwrite => "unable to overwrite data: ",
            Operation::Obfuscate => "unable to obfuscate data: ",
            Operation::Mask => "unable to mask data: ",
        }
    }
}

/// Why a transformation turns a request down.
pub enum Refusal {
    /// The request is not valid.
    Invalid(ValidationError),
    /// The value is of a kind that the operation does not take.
    WrongKind,
    /// The value does not stand in the document as a range of its text, so
    /// it cannot be read or replaced there.
    OutOfPlace,
}

/// What is said of a value that cannot be replaced where it stands.
pub open spec fn out_of_place_detail() -> Seq<char> {
    "path does not resolve to a single location"@
}

/// What is said of a value of the wrong kind. Obfuscation takes strings
/// only, and says the same.
pub open spec fn wrong_kind_message(path: Seq<char>) -> Seq<char> {
    "unable to mask data: path '"@ + path + "' is not a string or number"@
}

impl Refusal {
    /// Whether `message` is what reports this refusal of `request`.
    pub open spec fn is_told_by(
        self,
        message: Seq<char>,
        request: RequestView,
        operation: Operation,
    ) -> bool {
        match self {
            Refusal::Invalid(failure) => failure.is_told_by(message, request),
            Refusal::WrongKind => message == wrong_kind_message(request.path),
            Refusal::OutOfPlace => message == operation.failure_prefix() + out_of_place_detail(),
        }
    }
}

/// Whether what `path` addresses in `document` can be read and replaced
/// where it stands.
pub open spec fn in_place(document: Seq<char>, path: Seq<char>) -> bool {
    json_lookup(document, path).is_readable() && json_lookup(document, path).lies_in(document)
}

/// The text that takes the place of an obfuscated value: the digest of the
/// bytes of its content, labelled and quoted.
pub open spec fn obfuscation_of(document: Seq<char>, path: Seq<char>) -> Seq<char> {
    obfuscated_literal(sha256_hex(encode_utf8(json_content(document, path))))
}

/// The text that takes the place of a masked value.
pub open spec fn mask_of(document: Seq<char>, path: Seq<char>, style: MaskStyle) -> Seq<char> {
    masked_literal(json_content(document, path), style)
}

/// Why `overwrite` turns `request` down, if it does.
pub open spec fn overwrite_refusal(request: RequestView) -> Option<Refusal> {
    match failed_check(request, true) {
        Some(failure) => Some(Refusal::Invalid(failure)),
        None => if request.target().lies_in(request.document()) {
            None
        } else {
            Some(Refusal::OutOfPlace)
        },
    }
}

/// The document that `overwrite` returns: the replacement stands as it was
/// given, whatever stood there before.
pub open spec fn overwritten_document(request: RequestView) -> Seq<char> {
    overwritten(request.document(), request.path, request.value)
}

/// Why `obfuscate` turns `request` down, if it does.
pub open spec fn obfuscate_refusal(request: RequestView) -> Option<Refusal> {
    match failed_check(request, false) {
        Some(failure) => Some(Refusal::Invalid(failure)),
        None => if request.target().kind != Kind::String {
            Some(Refusal::WrongKind)
        } else if in_place(request.document(), request.path) {
            None
        } else {
            Some(Refusal::OutOfPlace)
        },
    }
}

/// The document that `obfuscate` returns.
pub open spec fn obfuscated_document(request: RequestView) -> Seq<char> {
    overwritten(
        request.document(),
        request.path,
        obfuscation_of(request.document(), request.path),
    )
}

/// Why `mask` turns `request` down, if it does.
pub open spec fn mask_refusal(request: RequestView) -> Option<Refusal> {
    match failed_check(request, false) {
        Some(failure) => Some(Refusal::Invalid(failure)),
        None => if style_for(request.target().kind) is None {
            Some(Refusal::WrongKind)
        } else if in_place(request.document(), request.path) {
            None
        } else {
            Some(Refusal::OutOfPlace)
        },
    }
}

/// The document that `mask` returns.
pub open spec fn masked_document(request: RequestView) -> Seq<char> {
    overwritten(
        request.document(),
        request.path,
        mask_of(request.document(), request.path, style_for(request.target().kind).unwrap()),
    )
}

/// Validation comes first: a request that fails a check is turned down for
/// that check by every operation, whatever the document holds at the path.
/// Only `overwrite` asks for a replacement.
pub proof fn lemma_validation_comes_first(request: RequestView)
    ensures
        failed_check(request, true) matches Some(failure) ==> overwrite_refusal(request) == Some(
            Refusal::Invalid(failure),
        ),
        failed_check(request, false) matches Some(failure) ==> obfuscate_refusal(request) == Some(
            Refusal::Invalid(failure),
        ) && mask_refusal(request) == Some(Refusal::Invalid(failure)),
        request.path.len() == 0 ==> overwrite_refusal(request) == Some(
            Refusal::Invalid(ValidationError::EmptyPath),
        ) && obfuscate_refusal(request) == Some(Refusal::Invalid(ValidationError::EmptyPath))
            && mask_refusal(request) == Some(Refusal::Invalid(ValidationError::EmptyPath)),
        overwrite_refusal(request) is None ==> failed_check(request, true) is None,
        obfuscate_refusal(request) is None ==> failed_check(request, false) is None,
        mask_refusal(request) is None ==> failed_check(request, false) is None,
{
}

/// `overwrite` changes nothing but the value: byte for byte, the new
/// document is the old one up to the value, then the replacement as it was
/// given, then the old one from the end of the value on.
pub proof fn lemma_overwrite_changes_the_value_only(request: RequestView)
    requires
        overwrite_refusal(request) is None,
    ensures
        encode_utf8(overwritten_document(request)) == request.data.subrange(
            0,
            request.target().offset.unwrap() as int,
        ) + encode_utf8(request.value) + request.data.subrange(
            request.target().offset.unwrap() + request.target().width(),
            request.data.len() as int,
        ),
        encode_utf8(overwritten_document(request)).subrange(
            request.target().offset.unwrap() as int,
            request.target().offset.unwrap() + encode_utf8(request.value).len(),
        ) == encode_utf8(request.value),
{
    decode_utf8_encode_utf8(request.data);
    lemma_replacement_spares_the_rest(request.target(), request.document(), request.value);
}

/// What `overwrite` wrote is read back: a value that lies in the new
/// document at the place of the old one, and is as wide as the replacement,
/// has the replacement as its text. So a later look at the path finds the
/// replacement wherever the path still leads to that place. It need not: a
/// path that picks an item by what the item holds may lose it once the item
/// is replaced.
pub proof fn lemma_overwritten_value_reads_back(request: RequestView, later: ValueView)
    requires
        overwrite_refusal(request) is None,
        later.lies_in(overwritten_document(request)),
        later.offset == request.target().offset,
        later.width() == encode_utf8(request.value).len(),
    ensures
        later.text == request.value,
{
    lemma_replacement_spares_the_rest(request.target(), request.document(), request.value);
    encode_utf8_decode_utf8(later.text);
    encode_utf8_decode_utf8(request.value);
}

/// Obfuscation is a function of the document and the path alone: the
/// replacement that a request carries plays no part, and the same document
/// and path give the same outcome every time.
pub proof fn lemma_obfuscate_is_deterministic(first: RequestView, second: RequestView)
    requires
        first.data == second.data,
        first.path == second.path,
    ensures
        obfuscate_refusal(first) == obfuscate_refusal(second),
        obfuscated_document(first) == obfuscated_document(second),
{
}

/// The text that obfuscation writes holds, after its label, the digest of
/// the bytes of the content, and nothing else but the quotes.
pub proof fn lemma_obfuscation_holds_the_digest(document: Seq<char>, path: Seq<char>)
    ensures
        obfuscation_of(document, path).subrange(
            8,
            obfuscation_of(document, path).len() - 1,
        ) == sha256_hex(encode_utf8(json_content(document, path))),
        obfuscation_of(document, path).subrange(0, 8) == seq!['"'] + digest_label(),
        obfuscation_of(document, path).last() == '"',
{
    lemma_literal_holds_digest(sha256_hex(encode_utf8(json_content(document, path))));
}

/// What obfuscation writes is a string without escapes, and its content is
/// the label and the digest.
pub proof fn lemma_obfuscation_reads_plainly(digest: Seq<char>, offset: Option<usize>)
    requires
        is_hex_digest(digest),
    ensures
        obfuscated_literal(digest).len() == 73,
        (ValueView { kind: Kind::String, text: obfuscated_literal(digest), offset }).plain_content()
            == Some(digest_label() + digest),
{
    let literal = obfuscated_literal(digest);
    lemma_literal_holds_digest(digest);
    assert forall|i: int| 0 <= i < literal.len() implies literal[i] != '\\' by {
        if 8 <= i < 72 {
            assert(literal[i] == digest[i - 8]);
        }
    }
}

/// The string that obfuscation replaces, where it has no escapes, is
/// digested as it stands between its quotes.
pub proof fn lemma_obfuscated_plain_string(request: RequestView)
    requires
        content_follows_text(request.document(), request.path),
        request.target().kind == Kind::String,
        !request.target().text.contains('\\'),
    ensures
        obfuscated_document(request) == request.target().replaced_in(
            request.document(),
            obfuscated_literal(
                sha256_hex(
                    encode_utf8(
                        request.target().text.subrange(1, request.target().text.len() - 1),
                    ),
                ),
            ),
        ),
{
}

/// `obfuscate` takes strings only: on a valid request whose path addresses
/// anything else it refuses, for the kind.
pub proof fn lemma_obfuscate_takes_strings_only(request: RequestView)
    ensures
        obfuscate_refusal(request) is None ==> request.target().kind == Kind::String,
        failed_check(request, false) is None && request.target().kind != Kind::String
            ==> obfuscate_refusal(request) == Some(Refusal::WrongKind),
{
}

/// `mask` goes by the kind of the value. A string is masked by `*` and
/// written between quotes, a number is masked by `0` and written bare, and
/// on a valid request whose path addresses anything else `mask` refuses,
/// for the kind.
pub proof fn lemma_mask_goes_by_kind(request: RequestView)
    ensures
        mask_refusal(request) is None ==> request.target().kind == Kind::String
            || request.target().kind == Kind::Number,
        request.target().kind == Kind::String ==> masked_document(request) == overwritten(
            request.document(),
            request.path,
            quoted(masked(json_content(request.document(), request.path), '*')),
        ),
        request.target().kind == Kind::Number ==> masked_document(request) == overwritten(
            request.document(),
            request.path,
            masked(json_content(request.document(), request.path), '0'),
        ),
        failed_check(request, false) is None && request.target().kind != Kind::String
            && request.target().kind != Kind::Number ==> mask_refusal(request) == Some(
            Refusal::WrongKind,
        ),
{
}

/// A number is masked as it is written: its digits, its sign and its point
/// count alike, and the zeros take the place of the last four fifths.
pub proof fn lemma_masked_number(request: RequestView)
    requires
        content_follows_text(request.document(), request.path),
        request.target().kind == Kind::Number,
    ensures
        masked_document(request) == request.target().replaced_in(
            request.document(),
            masked(request.target().text, '0'),
        ),
{
}

/// A string without escapes is masked as it stands between its quotes, and
/// the quotes are written again.
pub proof fn lemma_masked_plain_string(request: RequestView)
    requires
        content_follows_text(request.document(), request.path),
        request.target().kind == Kind::String,
        !request.target().text.contains('\\'),
    ensures
        masked_document(request) == request.target().replaced_in(
            request.document(),
            quoted(
                masked(request.target().text.subrange(1, request.target().text.len() - 1), '*'),
            ),
        ),
{
}

/// Masking is a function of the document and the path alone.
pub proof fn lemma_mask_is_deterministic(first: RequestView, second: RequestView)
    requires
        first.data == second.data,
        first.path == second.path,
    ensures
        mask_refusal(first) == mask_refusal(second),
        masked_document(first) == masked_document(second),
{
}

/// What the first characters of a message show of the refusal that it
/// reports.
proof fn lemma_messages_begin_apart(
    message: Seq<char>,
    request: RequestView,
    operation: Operation,
    refusal: Refusal,
)
    requires
        refusal.is_told_by(message, request, operation),
    ensures
        message.len() > 10,
        refusal == Refusal::Invalid(ValidationError::EmptyPath) ==> message[0] == 'p'
            && message[5] == 'c',
        refusal == Refusal::Invalid(ValidationError::EmptyDocument) ==> message[0] == 'd'
            && message[5] == 'c',
        refusal == Refusal::Invalid(ValidationError::EmptyValue) ==> message[0] == 'v',
        refusal == Refusal::Invalid(ValidationError::InvalidEncoding) ==> message[0] == 'u'
            && message[10] == 'p',
        refusal == Refusal::Invalid(ValidationError::InvalidDocument) ==> message[0] == 'd'
            && message[5] == 'i',
        refusal == Refusal::Invalid(ValidationError::PathNotFound) ==> message[0] == 'p'
            && message[5] == '\'',
        refusal == Refusal::WrongKind ==> message[0] == 'u' && message[10] == 'm' && message.len()
            > 26 && message[26] == '\'',
        refusal == Refusal::OutOfPlace ==> message[0] == 'u' && (message[10] == 'o' || (
        message[10] == 'm' && message.len() > 26 && message[26] == 'd')),
{
    reveal_strlit("path cannot be empty");
    reveal_strlit("data cannot be empty");
    reveal_strlit("value cannot be empty");
    reveal_strlit("unable to parse data as UTF-8: ");
    reveal_strlit("data is not valid JSON: ");
    reveal_strlit("path '");
    reveal_strlit("' not found in data");
    reveal_strlit("unable to mask data: path '");
    reveal_strlit("' is not a string or number");
    reveal_strlit("unable to overwrite data: ");
    reveal_strlit("unable to obfuscate data: ");
    reveal_strlit("unable to mask data: ");
    reveal_strlit("path does not resolve to a single location");
    match refusal {
        Refusal::Invalid(ValidationError::InvalidEncoding) => {
            let prefix = encoding_failure_prefix();
            assert(message[0] == message.subrange(0, prefix.len() as int)[0]);
            assert(message[10] == message.subrange(0, prefix.len() as int)[10]);
        },
        _ => {},
    }
}

/// A message reports one refusal only: told why a request was turned down,
/// a caller knows which check it failed.
pub proof fn lemma_message_tells_one_refusal(
    message: Seq<char>,
    request: RequestView,
    operation: Operation,
    first: Refusal,
    second: Refusal,
)
    requires
        first.is_told_by(message, request, operation),
        second.is_told_by(message, request, operation),
    ensures
        first == second,
{
    lemma_messages_begin_apart(message, request, operation, first);
    lemma_messages_begin_apart(message, request, operation, second);
}

/// The error that reports a value without a place in the document.
fn out_of_place(operation: Operation) -> (error: TransformError)
    ensures
        error@ == operation.failure_prefix() + out_of_place_detail(),
{
    let mut message: String = operation.failure_prefix_text().to_owned();
    message.append("path does not resolve to a single location");
    TransformError::Generic(message)
}

/// The error that reports a value of the wrong kind.
fn wrong_kind(path: &str) -> (error: TransformError)
    ensures
        error@ == wrong_kind_message(path@),
{
    let mut message: String = "unable to mask data: path '".to_owned();
    message.append(path);
    message.append("' is not a string or number");
    TransformError::Generic(message)
}

/// Writes `replacement` in the place of `found`, if it has one in the
/// document.
fn replace(
    operation: Operation,
    data: &str,
    found: &Value,
    replacement: &str,
) -> (outcome: Result<String, TransformError>)
    ensures
        match outcome {
            Ok(document) => found@.lies_in(data@) && document@ == found@.replaced_in(
                data@,
                replacement@,
            ),
            Err(error) => !found@.lies_in(data@) && error@ == operation.failure_prefix()
                + out_of_place_detail(),
        },
{
    match found.replace_in(data, replacement) {
        Some(document) => Ok(document),
        None => Err(out_of_place(operation)),
    }
}

/// Replaces the value at `path` by `replacement`, as it is given: a caller
/// who wants a JSON string there hands in the quotes too.
pub fn overwrite(request: &Request) -> (outcome: Result<String, TransformError>)
    ensures
        match outcome {
            Ok(document) => overwrite_refusal(request@) is None && document@
                == overwritten_document(request@),
            Err(error) => overwrite_refusal(request@) matches Some(refusal) && refusal.is_told_by(
                error@,
                request@,
                Operation::Overwrite,
            ),
        },
{
    match find_target(request, true) {
        Ok((data, found)) => replace(Operation::Overwrite, data, &found, request.value.as_str()),
        Err(error) => Err(error),
    }
}

/// Replaces the string at `path` by the SHA-256 digest of its content.
/// Nothing but a string can be obfuscated.
pub fn obfuscate(request: &Request) -> (outcome: Result<String, TransformError>)
    ensures
        match outcome {
            Ok(document) => obfuscate_refusal(request@) is None && document@
                == obfuscated_document(request@),
            Err(error) => obfuscate_refusal(request@) matches Some(refusal) && refusal.is_told_by(
                error@,
                request@,
                Operation::Obfuscate,
            ),
        },
        outcome is Ok ==> content_follows_text(request@.document(), request@.path),
        outcome is Ok ==> is_hex_digest(
            sha256_hex(encode_utf8(json_content(request@.document(), request@.path))),
        ),
{
    match find_target(request, false) {
        Ok((data, found)) => match found.kind {
            Kind::String => _obfuscate(data, request.path.as_str(), &found),
            _ => Err(wrong_kind(request.path.as_str())),
        },
        Err(error) => Err(error),
    }
}

/// Works out the digest of the string that was found at `path` and writes
/// it there.
fn _obfuscate(data: &str, path: &str, found: &Value) -> (outcome: Result<String, TransformError>)
    requires
        json_valid(data@),
        found@ == json_lookup(data@, path@),
    ensures
        match outcome {
            Ok(document) => in_place(data@, path@) && document@ == overwritten(
                data@,
                path@,
                obfuscation_of(data@, path@),
            ),
            Err(error) => !in_place(data@, path@) && error@
                == Operation::Obfuscate.failure_prefix() + out_of_place_detail(),
        },
        outcome is Ok ==> content_follows_text(data@, path@),
        outcome is Ok ==> is_hex_digest(sha256_hex(encode_utf8(json_content(data@, path@)))),
{
    if !found.is_readable() {
        return Err(out_of_place(Operation::Obfuscate));
    }
    let contents: String = get_content(data, path);
    let hashed: String = digest_hex(contents.as_str().as_bytes());
    let obfuscated: String = obfuscated_text(hashed.as_str());
    replace(Operation::Obfuscate, data, found, obfuscated.as_str())
}

/// Hides four fifths of the string or the number at `path`, from its end.
/// A string is masked by `*`, a number by `0`; nothing else can be masked.
pub fn mask(request: &Request) -> (outcome: Result<String, TransformError>)
    ensures
        match outcome {
            Ok(document) => mask_refusal(request@) is None && document@ == masked_document(
                request@,
            ),
            Err(error) => mask_refusal(request@) matches Some(refusal) && refusal.is_told_by(
                error@,
                request@,
                Operation::Mask,
            ),
        },
        outcome is Ok ==> content_follows_text(request@.document(), request@.path),
{
    match find_target(request, false) {
        Ok((data, found)) => match mask_style(found.kind) {
            Some(style) => _mask(data, request.path.as_str(), &found, style.symbol, style.quote),
            None => Err(wrong_kind(request.path.as_str())),
        },
        Err(error) => Err(error),
    }
}

/// Works out the masked text of the value that was found at `path` and
/// writes it there.
fn _mask(
    data: &str,
    path: &str,
    found: &Value,
    mask_char: char,
    quote: bool,
) -> (outcome: Result<String, TransformError>)
    requires
        json_valid(data@),
        found@ == json_lookup(data@, path@),
    ensures
        match outcome {
            Ok(document) => in_place(data@, path@) && document@ == overwritten(
                data@,
                path@,
                mask_of(data@, path@, (MaskStyle { symbol: mask_char, quote })),
            ),
            Err(error) => !in_place(data@, path@) && error@
                == Operation::Mask.failure_prefix() + out_of_place_detail(),
        },
        outcome is Ok ==> content_follows_text(data@, path@),
{
    if !found.is_readable() {
        return Err(out_of_place(Operation::Mask));
    }
    let contents: String = get_content(data, path);
    let masked: String = masked_text(contents.as_str(), mask_char, quote);
    replace(Operation::Mask, data, found, masked.as_str())
}

} // verus!
