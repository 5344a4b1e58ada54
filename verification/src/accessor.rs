//! Reading and replacing a value inside a JSON document by its dotted path.
//!
//! The JSON syntax and the path language are those of the `streamdal_gjson`
//! crate. What that crate computes is named here by spec functions without a
//! body; the functions that make the calls are trusted to return what those
//! names stand for. Whether a value that was found can be replaced where it
//! stands is decided here, and the replacing is done here: both are proved.

use vstd::prelude::*;
use vstd::string::{StringExecFns, StringSliceAdditionalSpecFns};
use vstd::utf8::*;

verus! {

/// The structural type of a value in a document.
#[derive(Clone, Copy, Debug, PartialEq, Eq, Structural)]
pub enum Kind {
    String,
    Number,
    Bool,
    Object,
    Array,
    Null,
}

/// What a path addresses in a document.
#[derive(Debug)]
pub struct Value {
    /// The structural type of the value.
    pub kind: Kind,
    /// The value as it is written in the document, quotes included. Empty
    /// when the path addresses nothing.
    pub text: String,
    /// The byte at which `text` starts in the document, where the value was
    /// read from the document itself and not put together from parts of it.
    pub offset: Option<usize>,
}

/// The mathematical content of a `Value`.
pub struct ValueView {
    pub kind: Kind,
    pub text: Seq<char>,
    pub offset: Option<usize>,
}

impl View for Value {
    type V = ValueView;

    open spec fn view(&self) -> ValueView {
        ValueView { kind: self.kind, text: self.text@, offset: self.offset }
    }
}

impl ValueView {
    /// A path addresses something exactly when the text found is not empty.
    pub open spec fn is_present(self) -> bool {
        self.text.len() > 0
    }

    /// The number of bytes that the text takes.
    pub open spec fn width(self) -> nat {
        encode_utf8(self.text).len()
    }

    /// Whether the content can be taken out of the text: a string needs
    /// room for its two quotes.
    pub open spec fn is_readable(self) -> bool {
        self.kind == Kind::String ==> self.width() >= 2
    }

    /// The content of the value, where it can be read off the text: a number
    /// is its own content, and a string without escapes has its content
    /// between its quotes.
    pub open spec fn plain_content(self) -> Option<Seq<char>> {
        match self.kind {
            Kind::Number => Some(self.text),
            Kind::String => if self.text.contains('\\') {
                None
            } else {
                Some(self.text.subrange(1, self.text.len() - 1))
            },
            _ => None,
        }
    }

    /// Whether the value stands in `document` where `offset` says: the
    /// bytes from there on are those of `text`, and they begin and end with
    /// whole characters of the document.
    pub open spec fn lies_in(self, document: Seq<char>) -> bool {
        let bytes = encode_utf8(document);
        &&& self.offset matches Some(begin)
        &&& begin + self.width() <= bytes.len()
        &&& bytes.subrange(begin as int, begin + self.width()) == encode_utf8(self.text)
        &&& is_char_boundary(bytes, begin as int)
        &&& is_char_boundary(bytes, begin + self.width())
    }

    /// `document` with the value's place given over to `replacement`: what
    /// stands before the value, the replacement as it is, and what stands
    /// after the value.
    pub open spec fn replaced_in(self, document: Seq<char>, replacement: Seq<char>) -> Seq<char>
        recommends
            self.lies_in(document),
    {
        let bytes = encode_utf8(document);
        let begin = self.offset.unwrap() as int;
        let end = begin + self.width();
        decode_utf8(bytes.subrange(0, begin)) + replacement + decode_utf8(
            bytes.subrange(end, bytes.len() as int),
        )
    }
}

/// Whether `part` stands in `whole` from the byte `begin` on.
pub fn holds_at(whole: &[u8], begin: usize, part: &[u8]) -> (held: bool)
    ensures
        held == (begin + part@.len() <= whole@.len() && whole@.subrange(
            begin as int,
            begin + part@.len(),
        ) == part@),
        held ==> begin + part@.len() <= usize::MAX,
{
    let size: usize = whole.len();
    let width: usize = part.len();
    if begin > size || width > size - begin {
        return false;
    }
    let mut seen: usize = 0;
    while seen < width
        invariant
            size == whole@.len(),
            width == part@.len(),
            begin + width <= size,
            seen <= width,
            whole@.subrange(begin as int, begin + seen) == part@.subrange(0, seen as int),
        decreases width - seen,
    {
        if whole[begin + seen] != part[seen] {
            return false;
        }
        seen = seen + 1;
    }
    assert(part@.subrange(0, width as int) == part@);
    true
}

impl Value {
    /// Whether the path addressed anything.
    pub fn is_present(&self) -> (present: bool)
        ensures
            present == self@.is_present(),
    {
        !self.text.as_str().is_empty()
    }

    /// Whether the content can be taken out of the text.
    pub fn is_readable(&self) -> (readable: bool)
        ensures
            readable == self@.is_readable(),
    {
        match self.kind {
            Kind::String => self.text.as_str().as_bytes().len() >= 2,
            _ => true,
        }
    }

    /// Whether the value stands in `document` where its offset says, so
    /// that it can be replaced there.
    pub fn lies_in(&self, document: &str) -> (inside: bool)
        ensures
            inside == self@.lies_in(document@),
            inside ==> self@.offset.unwrap() + self@.width() <= usize::MAX,
    {
        let part: &[u8] = self.text.as_str().as_bytes();
        match self.offset {
            None => false,
            Some(begin) => holds_at(document.as_bytes(), begin, part) && document.is_char_boundary(
                begin,
            ) && document.is_char_boundary(begin + part.len()),
        }
    }

    /// Writes `replacement` in the value's place, where the value has one in
    /// `document`: the document up to the value, the replacement as it is,
    /// and the document from the end of the value on.
    pub fn replace_in(&self, document: &str, replacement: &str) -> (replaced: Option<String>)
        ensures
            match replaced {
                Some(text) => self@.lies_in(document@) && text@ == self@.replaced_in(
                    document@,
                    replacement@,
                ),
                None => !self@.lies_in(document@),
            },
    {
        broadcast use encode_utf8_decode_utf8;

        match self.offset {
            Some(begin) if self.lies_in(document) => {
                let end: usize = begin + self.text.as_str().as_bytes().len();
                let (before, _) = document.split_at(begin);
                let (_, after) = document.split_at(end);
                let mut text: String = before.to_owned();
                text.append(replacement);
                text.append(after);
                Some(text)
            },
            _ => None,
        }
    }
}

/// Whether `document` is well-formed JSON, as `streamdal_gjson::valid`
/// decides it.
pub uninterp spec fn json_valid(document: Seq<char>) -> bool;

/// What `path` addresses in `document`, as `streamdal_gjson::get` finds it:
/// the kind of the value, its text as the document has it, and the byte at
/// which that text starts. Where the path addresses nothing, the text is
/// empty.
pub uninterp spec fn json_lookup(document: Seq<char>, path: Seq<char>) -> ValueView;

/// The content of what `path` addresses in `document`, as the `str` method
/// of `streamdal_gjson::Value` gives it: for a string, the characters
/// between the quotes with the escapes resolved; for a number, its digits
/// as they are written.
pub uninterp spec fn json_content(document: Seq<char>, path: Seq<char>) -> Seq<char>;

/// Whether the content of what `path` addresses in `document` is what can
/// be read off its text, where anything can.
pub open spec fn content_follows_text(document: Seq<char>, path: Seq<char>) -> bool {
    json_lookup(document, path).plain_content() matches Some(plain) ==> json_content(
        document,
        path,
    ) == plain
}

/// `document` with what `path` addresses in it given over to `replacement`.
pub open spec fn overwritten(
    document: Seq<char>,
    path: Seq<char>,
    replacement: Seq<char>,
) -> Seq<char> {
    json_lookup(document, path).replaced_in(document, replacement)
}

/// Calls `streamdal_gjson::valid`, which walks the whole text once and
/// answers whether it is one JSON value with nothing but white space around
/// it. The answer is taken as `json_valid` of the text. The walk calls
/// itself once for every level of nesting, so the stack bounds the depth of
/// a document that can be read.
#[verifier::external_body]
pub(crate) fn is_valid_document(document: &str) -> (valid: bool)
    ensures
        valid == json_valid(document@),
{
    streamdal_gjson::valid(document)
}

/// Calls `streamdal_gjson::get` on a document that `valid` accepts, and
/// copies out of its result what the methods `kind`, `json` and `index`
/// give: the kind, the raw JSON text and the place of that text. The two
/// boolean kinds of that crate become `Kind::Bool`. What comes back is taken
/// as `json_lookup` of the two arguments.
#[verifier::external_body]
pub(crate) fn get_value(document: &str, path: &str) -> (found: Value)
    requires
        json_valid(document@),
    ensures
        found@ == json_lookup(document@, path@),
{
    let value = streamdal_gjson::get(document, path);
    let kind = match value.kind() {
        streamdal_gjson::Kind::String => Kind::String,
        streamdal_gjson::Kind::Number => Kind::Number,
        streamdal_gjson::Kind::True => Kind::Bool,
        streamdal_gjson::Kind::False => Kind::Bool,
        streamdal_gjson::Kind::Object => Kind::Object,
        streamdal_gjson::Kind::Array => Kind::Array,
        streamdal_gjson::Kind::Null => Kind::Null,
    };
    Value { kind, text: value.json().to_string(), offset: value.index() }
}

/// Calls `streamdal_gjson::get` on a document that `valid` accepts, and the
/// `str` method of its result. For a number that method gives the raw text.
/// For a string in which no backslash was met it cuts the first and the
/// last byte, which are the quotes, off the raw text, and panics on a raw
/// text shorter than that: the `requires` keeps such a call out. For a
/// string with escapes it gives the text with the escapes resolved, of which
/// nothing is said here. What comes back is taken as `json_content` of the
/// two arguments.
#[verifier::external_body]
pub(crate) fn get_content(document: &str, path: &str) -> (content: String)
    requires
        json_valid(document@),
        json_lookup(document@, path@).is_readable(),
    ensures
        content@ == json_content(document@, path@),
        json_lookup(document@, path@).plain_content() matches Some(plain) ==> content@ == plain,
{
    streamdal_gjson::get(document, path).str().to_string()
}

/// The encoding of two texts in a row is the two encodings in a row.
pub proof fn lemma_encoding_of_concatenation(first: Seq<char>, second: Seq<char>)
    ensures
        encode_utf8(first + second) == encode_utf8(first) + encode_utf8(second),
    decreases first.len(),
{
    if first.len() > 0 {
        lemma_encoding_of_concatenation(first.drop_first(), second);
        assert((first + second).drop_first() =~= first.drop_first() + second);
    }
}

/// A replacement changes nothing but the value: byte for byte, the new
/// document is the old one up to the value, then the replacement, then the
/// old one from the end of the value on.
pub proof fn lemma_replacement_spares_the_rest(
    found: ValueView,
    document: Seq<char>,
    replacement: Seq<char>,
)
    requires
        found.lies_in(document),
    ensures
        encode_utf8(found.replaced_in(document, replacement)) == encode_utf8(document).subrange(
            0,
            found.offset.unwrap() as int,
        ) + encode_utf8(replacement) + encode_utf8(document).subrange(
            found.offset.unwrap() + found.width(),
            encode_utf8(document).len() as int,
        ),
        encode_utf8(found.replaced_in(document, replacement)).len() + found.width()
            == encode_utf8(document).len() + encode_utf8(replacement).len(),
        encode_utf8(found.replaced_in(document, replacement)).subrange(
            found.offset.unwrap() as int,
            found.offset.unwrap() + encode_utf8(replacement).len(),
        ) == encode_utf8(replacement),
{
    let bytes = encode_utf8(document);
    let begin = found.offset.unwrap() as int;
    let end = begin + found.width();
    let before = bytes.subrange(0, begin);
    let after = bytes.subrange(end, bytes.len() as int);
    encode_utf8_valid_utf8(document);
    valid_utf8_split(bytes, begin);
    valid_utf8_split(bytes, end);
    decode_utf8_encode_utf8(before);
    decode_utf8_encode_utf8(after);
    lemma_encoding_of_concatenation(decode_utf8(before), replacement);
    lemma_encoding_of_concatenation(decode_utf8(before) + replacement, decode_utf8(after));
}

/// Where one well-formed text ends and the next begins, no character is cut.
proof fn lemma_texts_meet_between_characters(first: Seq<u8>, second: Seq<u8>)
    requires
        valid_utf8(first),
        valid_utf8(second),
    ensures
        valid_utf8(first + second),
        is_char_boundary(first + second, first.len() as int),
{
    valid_utf8_concat(first, second);
    if second.len() == 0 {
        is_char_boundary_start_end_of_seq(first);
    } else {
        is_char_boundary_iff_not_is_continuation_byte(second, 0);
        is_char_boundary_iff_not_is_continuation_byte(first + second, first.len() as int);
    }
}

/// What was written can be found again: the replacement lies in the new
/// document where the value lay in the old one. A value of any kind with
/// the replacement as its text, at the old offset, has its place there.
pub proof fn lemma_replacement_lies_in_the_result(
    found: ValueView,
    document: Seq<char>,
    replacement: Seq<char>,
    kind: Kind,
)
    requires
        found.lies_in(document),
    ensures
        (ValueView { kind, text: replacement, offset: found.offset }).lies_in(
            found.replaced_in(document, replacement),
        ),
{
    let bytes = encode_utf8(document);
    let begin = found.offset.unwrap() as int;
    let end = begin + found.width();
    let before = bytes.subrange(0, begin);
    let after = bytes.subrange(end, bytes.len() as int);
    let written = encode_utf8(replacement);
    lemma_replacement_spares_the_rest(found, document, replacement);
    encode_utf8_valid_utf8(document);
    encode_utf8_valid_utf8(replacement);
    valid_utf8_split(bytes, begin);
    valid_utf8_split(bytes, end);
    lemma_texts_meet_between_characters(written, after);
    lemma_texts_meet_between_characters(before, written + after);
    valid_utf8_concat(before, written);
    lemma_texts_meet_between_characters(before + written, after);
    assert(before + (written + after) =~= before + written + after);
}

/// A replacement can be undone: putting the old text back where the new
/// one was written gives the old document.
pub proof fn lemma_replacement_can_be_undone(
    found: ValueView,
    document: Seq<char>,
    replacement: Seq<char>,
)
    requires
        found.lies_in(document),
    ensures
        (ValueView { text: replacement, ..found }).replaced_in(
            found.replaced_in(document, replacement),
            found.text,
        ) == document,
{
    let written = ValueView { text: replacement, ..found };
    let changed = found.replaced_in(document, replacement);
    let restored = written.replaced_in(changed, found.text);
    lemma_replacement_lies_in_the_result(found, document, replacement, found.kind);
    lemma_replacement_spares_the_rest(found, document, replacement);
    lemma_replacement_spares_the_rest(written, changed, found.text);
    assert(encode_utf8(restored) =~= encode_utf8(document));
    encode_utf8_decode_utf8(restored);
    encode_utf8_decode_utf8(document);
}

/// Where a value stands and what takes its place does not depend on its
/// kind: a value of any kind can be replaced, by anything.
pub proof fn lemma_replacement_asks_no_kind(
    found: ValueView,
    kind: Kind,
    document: Seq<char>,
    replacement: Seq<char>,
)
    ensures
        (ValueView { kind, ..found }).lies_in(document) == found.lies_in(document),
        (ValueView { kind, ..found }).replaced_in(document, replacement) == found.replaced_in(
            document,
            replacement,
        ),
{
}

/// Putting a value's own text in its place gives the document back.
pub proof fn lemma_replacement_by_itself(found: ValueView, document: Seq<char>)
    requires
        found.lies_in(document),
    ensures
        found.replaced_in(document, found.text) == document,
{
    let bytes = encode_utf8(document);
    let begin = found.offset.unwrap() as int;
    let end = begin + found.width();
    lemma_replacement_spares_the_rest(found, document, found.text);
    assert(bytes =~= bytes.subrange(0, begin) + bytes.subrange(begin, end) + bytes.subrange(
        end,
        bytes.len() as int,
    ));
    encode_utf8_decode_utf8(document);
    encode_utf8_decode_utf8(found.replaced_in(document, found.text));
}

} // verus!
