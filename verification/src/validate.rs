//! The checks that every request has to pass before anything is transformed.

use vstd::prelude::*;
use vstd::string::StringExecFns;
use vstd::utf8::*;
use crate::accessor::{get_value, is_valid_document, json_valid, Value};
use crate::error::{starts_with, TransformError};
use crate::request::{Request, RequestView};
use crate::text::{convert_bytes_to_string, encoding_failure_prefix};

verus! {

/// Why a request is not valid. The variants stand in the order in which the
/// checks are made.
pub enum ValidationError {
    /// The path is empty.
    EmptyPath,
    /// The document is empty.
    EmptyDocument,
    /// A replacement is needed and the one given is empty.
    EmptyValue,
    /// The document is not UTF-8.
    InvalidEncoding,
    /// The document is not JSON.
    InvalidDocument,
    /// The path addresses nothing in the document.
    PathNotFound,
}

impl ValidationError {
    /// Whether `message` is what reports this failure of `request`.
    pub open spec fn is_told_by(self, message: Seq<char>, request: RequestView) -> bool {
        match self {
            ValidationError::EmptyPath => message == "path cannot be empty"@,
            ValidationError::EmptyDocument => message == "data cannot be empty"@,
            ValidationError::EmptyValue => message == "value cannot be empty"@,
            ValidationError::InvalidEncoding => starts_with(message, encoding_failure_prefix()),
            ValidationError::InvalidDocument => message == "data is not valid JSON: "@
                + request.document(),
            ValidationError::PathNotFound => message == "path '"@ + request.path
                + "' not found in data"@,
        }
    }
}

/// The first check that `request` fails, if it fails one. The cheap checks
/// on the request's shape come before those that read the document, and of
/// these the encoding comes before the syntax, and the syntax before the
/// path.
pub open spec fn failed_check(request: RequestView, value_check: bool) -> Option<ValidationError> {
    if request.path.len() == 0 {
        Some(ValidationError::EmptyPath)
    } else if request.data.len() == 0 {
        Some(ValidationError::EmptyDocument)
    } else if value_check && request.value.len() == 0 {
        Some(ValidationError::EmptyValue)
    } else if !valid_utf8(request.data) {
        Some(ValidationError::InvalidEncoding)
    } else if !json_valid(request.document()) {
        Some(ValidationError::InvalidDocument)
    } else if !request.target().is_present() {
        Some(ValidationError::PathNotFound)
    } else {
        None
    }
}

/// A request that fails a check has passed every check before it. So an
/// empty path is reported whatever the document holds, and a path is
/// reported as not found only in a document that is well-formed.
pub proof fn lemma_checks_are_ordered(request: RequestView, value_check: bool)
    ensures
        request.path.len() == 0 ==> failed_check(request, value_check) == Some(
            ValidationError::EmptyPath,
        ),
        failed_check(request, value_check) == Some(ValidationError::EmptyDocument)
            ==> request.path.len() > 0,
        failed_check(request, value_check) == Some(ValidationError::EmptyValue)
            ==> request.path.len() > 0 && request.data.len() > 0 && value_check,
        failed_check(request, value_check) == Some(ValidationError::InvalidEncoding)
            ==> request.path.len() > 0 && request.data.len() > 0 && (value_check
            ==> request.value.len() > 0),
        failed_check(request, value_check) == Some(ValidationError::InvalidDocument)
            ==> request.path.len() > 0 && request.data.len() > 0 && (value_check
            ==> request.value.len() > 0) && valid_utf8(request.data),
        failed_check(request, value_check) == Some(ValidationError::PathNotFound)
            ==> request.path.len() > 0 && request.data.len() > 0 && (value_check
            ==> request.value.len() > 0) && valid_utf8(request.data) && json_valid(
            request.document(),
        ),
        failed_check(request, value_check) is None ==> request.path.len() > 0
            && request.data.len() > 0 && (value_check ==> request.value.len() > 0)
            && valid_utf8(request.data) && json_valid(request.document())
            && request.target().is_present(),
{
}

/// A request that is valid when a replacement is asked for is valid when
/// none is; and its replacement plays no part where none is asked for.
pub proof fn lemma_value_matters_only_on_demand(first: RequestView, second: RequestView)
    requires
        first.data == second.data,
        first.path == second.path,
    ensures
        failed_check(first, false) == failed_check(second, false),
        failed_check(first, true) is None ==> failed_check(first, false) is None,
{
}

/// Makes the checks in their order and reports the first that fails. Of a
/// request that passes, it hands out the document as text and what the path
/// addresses in it.
pub fn find_target(
    request: &Request,
    value_check: bool,
) -> (outcome: Result<(&str, Value), TransformError>)
    ensures
        match outcome {
            Ok((document, found)) => failed_check(request@, value_check) is None && document@
                == request@.document() && found@ == request@.target(),
            Err(error) => failed_check(request@, value_check) matches Some(failure)
                && failure.is_told_by(error@, request@),
        },
{
    if request.path.as_str().is_empty() {
        return Err(TransformError::Generic("path cannot be empty".to_owned()));
    }
    if request.data.is_empty() {
        return Err(TransformError::Generic("data cannot be empty".to_owned()));
    }
    if value_check && request.value.as_str().is_empty() {
        return Err(TransformError::Generic("value cannot be empty".to_owned()));
    }
    let document: &str = match convert_bytes_to_string(&request.data) {
        Ok(text) => text,
        Err(error) => {
            return Err(error);
        },
    };
    if !is_valid_document(document) {
        let mut message: String = "data is not valid JSON: ".to_owned();
        message.append(document);
        return Err(TransformError::Generic(message));
    }
    let found: Value = get_value(document, request.path.as_str());
    if !found.is_present() {
        let mut message: String = "path '".to_owned();
        message.append(request.path.as_str());
        message.append("' not found in data");
        return Err(TransformError::Generic(message));
    }
    Ok((document, found))
}

/// Makes the checks in their order and reports the first that fails.
pub fn validate_request(
    request: &Request,
    value_check: bool,
) -> (outcome: Result<(), TransformError>)
    ensures
        match outcome {
            Ok(_) => failed_check(request@, value_check) is None,
            Err(error) => failed_check(request@, value_check) matches Some(failure)
                && failure.is_told_by(error@, request@),
        },
{
    match find_target(request, value_check) {
        Ok(_) => Ok(()),
        Err(error) => Err(error),
    }
}

} // verus!
