//! The text that takes a masked value's place.

use vstd::prelude::*;
use vstd::string::{StrSliceExecFns, StringExecFns};
use crate::accessor::Kind;

verus! {

/// How many characters of a value of `len` characters are hidden: four
/// fifths of the length, rounded to the nearest whole number. Four fifths
/// of a whole number never lie halfway between two whole numbers, so the
/// nearest one is unique.
pub open spec fn hidden_count(len: nat) -> nat {
    (4 * len + 2) / 5
}

/// How many leading characters of a value of `len` characters stay readable.
pub open spec fn kept_count(len: nat) -> nat {
    (len - hidden_count(len)) as nat
}

/// `content` with its tail hidden behind `symbol`.
pub open spec fn masked(content: Seq<char>, symbol: char) -> Seq<char> {
    content.subrange(0, kept_count(content.len()) as int) + Seq::new(
        hidden_count(content.len()),
        |i: int| symbol,
    )
}

/// `text` between two double quotes.
pub open spec fn quoted(text: Seq<char>) -> Seq<char> {
    seq!['"'] + text + seq!['"']
}

/// How a value of some kind is masked: the symbol that hides a character,
/// and whether the result is written as a JSON string.
#[derive(Clone, Copy, Debug)]
pub struct MaskStyle {
    pub symbol: char,
    pub quote: bool,
}

/// Strings are masked by `*` and stay strings, numbers are masked by `0` and
/// stay bare. Nothing else can be masked.
pub open spec fn style_for(kind: Kind) -> Option<MaskStyle> {
    match kind {
        Kind::String => Some(MaskStyle { symbol: '*', quote: true }),
        Kind::Number => Some(MaskStyle { symbol: '0', quote: false }),
        _ => None,
    }
}

/// What is written into the document in place of a value with the given
/// content.
pub open spec fn masked_literal(content: Seq<char>, style: MaskStyle) -> Seq<char> {
    if style.quote {
        quoted(masked(content, style.symbol))
    } else {
        masked(content, style.symbol)
    }
}

/// The hidden part is the whole number nearest to four fifths of the length:
/// it is off by less than half a character. It never exceeds the length.
pub proof fn lemma_hidden_count_is_nearest(len: nat)
    ensures
        -2 <= 5 * hidden_count(len) - 4 * len <= 2,
        hidden_count(len) <= len,
        hidden_count(len) + kept_count(len) == len,
{
}

/// No other whole number is as near: whatever rule breaks ties in rounding,
/// it is never asked.
pub proof fn lemma_nearest_is_unique(len: nat, count: int)
    requires
        -2 <= 5 * count - 4 * len <= 2,
    ensures
        count == hidden_count(len),
{
}

/// A longer value never has fewer characters hidden, nor fewer kept.
pub proof fn lemma_counts_grow_with_length(shorter: nat, longer: nat)
    requires
        shorter <= longer,
    ensures
        hidden_count(shorter) <= hidden_count(longer),
        kept_count(shorter) <= kept_count(longer),
{
}

/// Masking keeps the length. The head of the result is the head of the
/// content, as long as `kept_count` says; every character after it is the
/// symbol, and there are `hidden_count` of them.
pub proof fn lemma_mask_ratio(content: Seq<char>, symbol: char)
    ensures
        masked(content, symbol).len() == content.len(),
        masked(content, symbol).subrange(0, kept_count(content.len()) as int)
            == content.subrange(0, kept_count(content.len()) as int),
        masked(content, symbol).subrange(
            kept_count(content.len()) as int,
            content.len() as int,
        ) == Seq::new(hidden_count(content.len()), |i: int| symbol),
        forall|i: int|
            kept_count(content.len()) <= i < content.len() ==> #[trigger] masked(
                content,
                symbol,
            )[i] == symbol,
        content.len() - kept_count(content.len()) == hidden_count(content.len()),
{
    lemma_hidden_count_is_nearest(content.len());
}

/// A string is masked by `*` and quoted again; a number is masked by `0` and
/// left bare; no other kind has a style.
pub proof fn lemma_mask_dispatch(content: Seq<char>, kind: Kind)
    ensures
        kind == Kind::String ==> style_for(kind) is Some && masked_literal(
            content,
            style_for(kind).unwrap(),
        ) == quoted(masked(content, '*')),
        kind == Kind::Number ==> style_for(kind) is Some && masked_literal(
            content,
            style_for(kind).unwrap(),
        ) == masked(content, '0'),
        kind != Kind::String && kind != Kind::Number ==> style_for(kind) is None,
{
}

/// Computes `hidden_count` without leaving `usize`.
pub fn mask_count(len: usize) -> (hidden: usize)
    ensures
        hidden == hidden_count(len as nat),
        hidden <= len,
{
    let fifths: usize = len / 5;
    let rest: usize = len % 5;
    let kept: usize = if rest >= 3 {
        fifths + 1
    } else {
        fifths
    };
    len - kept
}

/// Chooses the style by the kind of the value.
pub fn mask_style(kind: Kind) -> (style: Option<MaskStyle>)
    ensures
        style == style_for(kind),
{
    match kind {
        Kind::String => Some(MaskStyle { symbol: '*', quote: true }),
        Kind::Number => Some(MaskStyle { symbol: '0', quote: false }),
        _ => None,
    }
}

/// Builds the text that replaces a value with the given content.
pub fn masked_text(content: &str, symbol: char, quote: bool) -> (text: String)
    ensures
        text@ == masked_literal(content@, (MaskStyle { symbol, quote })),
{
    let len: usize = content.unicode_len();
    let hidden: usize = mask_count(len);
    let kept: usize = len - hidden;
    let mut text: String = String::new();
    if quote {
        text.push('"');
    }
    text.append(content.substring_char(0, kept));
    let ghost head: Seq<char> = text@;
    let mut written: usize = 0;
    while written < hidden
        invariant
            written <= hidden,
            text@ == head + Seq::new(written as nat, |i: int| symbol),
        decreases hidden - written,
    {
        text.push(symbol);
        written = written + 1;
    }
    if quote {
        text.push('"');
    }
    text
}

} // verus!
