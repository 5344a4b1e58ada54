//! Transformations of a JSON document at a dotted path.
//!
//! A [`Request`] names a value inside a document by its path. Three
//! operations return the whole document with that value changed:
//!
//! - [`overwrite`] puts a replacement there, as it is given;
//! - [`obfuscate`] puts the SHA-256 digest of a string there;
//! - [`mask`] hides four fifths of a string or of a number, from its end.
//!
//! Every operation first checks the request ([`validate_request`]), and
//! reports what it refuses as a [`TransformError`].
//!
//! The modules:
//!
//! - `request`, `error`: what goes in and what comes out on failure;
//! - `text`: bytes that become text;
//! - `accessor`: finding a value in a document, and writing in its place;
//! - `validate`: the checks, in their order;
//! - `masking`, `digest`: the text that takes a value's place;
//! - `transform`: the three operations.
//!
//! Reading JSON and following a path is left to the `streamdal_gjson` crate,
//! hashing to the `sha256` crate. The contracts speak of what these compute
//! by name; everything that is built on their answers is proved.

pub mod accessor;
pub mod digest;
pub mod error;
pub mod masking;
pub mod request;
pub mod text;
pub mod transform;
pub mod validate;

pub use accessor::{Kind, Value};
pub use error::TransformError;
pub use request::Request;
pub use text::convert_bytes_to_string;
pub use transform::{mask, obfuscate, overwrite};
pub use validate::validate_request;
