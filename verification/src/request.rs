//! What a caller hands to a transformation.

use vstd::prelude::*;
use vstd::utf8::*;
use crate::accessor::{json_lookup, ValueView};

verus! {

/// A document, a path into it, and the text to put there. Only `overwrite`
/// reads `value`.
pub struct Request {
    /// The document, as UTF-8 bytes.
    pub data: Vec<u8>,
    /// The dotted path of the value to transform.
    pub path: String,
    /// The replacement, written as it is to stand in the document.
    pub value: String,
}

/// The mathematical content of a `Request`.
pub struct RequestView {
    pub data: Seq<u8>,
    pub path: Seq<char>,
    pub value: Seq<char>,
}

impl View for Request {
    type V = RequestView;

    open spec fn view(&self) -> RequestView {
        RequestView { data: self.data@, path: self.path@, value: self.value@ }
    }
}

impl RequestView {
    /// The document as text. It means something only where `data` is
    /// well-formed UTF-8.
    pub open spec fn document(self) -> Seq<char> {
        decode_utf8(self.data)
    }

    /// What the path addresses in the document.
    pub open spec fn target(self) -> ValueView {
        json_lookup(self.document(), self.path)
    }
}

} // verus!
