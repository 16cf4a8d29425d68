//! What can go wrong in an extraction.

use vstd::prelude::*;
use vstd::string::StringExecFns;

verus! {

/// Errors that an extraction can end in.
#[derive(Debug)]
pub enum ReadabilityError {
    /// The document could not be read as HTML, or holds no element at all.
    HtmlParseError(String),
    /// The text that was found is shorter than the threshold asks for, or
    /// the script reports that its own check of the content failed.
    ReadabilityCheckFailed,
    /// The extraction failed for another reason.
    ExtractionError(String),
    /// The engine itself failed; `context` says during what.
    JsEvaluation { context: String, source: rquickjs::Error },
    /// An argument was refused, in practice the base URL.
    InvalidOptions(String),
}

/// A [`ReadabilityError`] with its texts as sequences of characters.
pub enum ErrorView {
    HtmlParseError(Seq<char>),
    ReadabilityCheckFailed,
    ExtractionError(Seq<char>),
    JsEvaluation { context: Seq<char>, source: rquickjs::Error },
    InvalidOptions(Seq<char>),
}

impl ErrorView {
    /// The line that describes the error to a person.
    pub open spec fn message(self) -> Seq<char> {
        match self {
            ErrorView::HtmlParseError(detail) => "Failed to parse HTML: "@ + detail,
            ErrorView::ReadabilityCheckFailed => "Content failed readability check"@,
            ErrorView::ExtractionError(detail) => "Failed to extract readable content: "@ + detail,
            ErrorView::JsEvaluation { context, .. } => "Failed to evaluate JavaScript: "@ + context,
            ErrorView::InvalidOptions(detail) => "Invalid options: "@ + detail,
        }
    }
}

impl View for ReadabilityError {
    type V = ErrorView;

    open spec fn view(&self) -> ErrorView {
        match self {
            ReadabilityError::HtmlParseError(detail) => ErrorView::HtmlParseError(detail@),
            ReadabilityError::ReadabilityCheckFailed => ErrorView::ReadabilityCheckFailed,
            ReadabilityError::ExtractionError(detail) => ErrorView::ExtractionError(detail@),
            ReadabilityError::JsEvaluation { context, source } => ErrorView::JsEvaluation {
                context: context@,
                source: *source,
            },
            ReadabilityError::InvalidOptions(detail) => ErrorView::InvalidOptions(detail@),
        }
    }
}

impl ReadabilityError {
    /// The line that describes the error to a person.
    pub fn message(&self) -> (r: String)
        ensures
            r@ == self@.message(),
    {
        match self {
            ReadabilityError::HtmlParseError(detail) => String::from_str(
                "Failed to parse HTML: ",
            ).concat(detail.as_str()),
            ReadabilityError::ReadabilityCheckFailed => String::from_str(
                "Content failed readability check",
            ),
            ReadabilityError::ExtractionError(detail) => String::from_str(
                "Failed to extract readable content: ",
            ).concat(detail.as_str()),
            ReadabilityError::JsEvaluation { context, .. } => String::from_str(
                "Failed to evaluate JavaScript: ",
            ).concat(context.as_str()),
            ReadabilityError::InvalidOptions(detail) => String::from_str(
                "Invalid options: ",
            ).concat(detail.as_str()),
        }
    }
}

/// The error is one of the engine itself, raised during `context`.
pub open spec fn is_engine_error(e: ReadabilityError, context: Seq<char>) -> bool {
    e@ is JsEvaluation && e@->context == context
}

/// Keeps a value the engine gave, or wraps the engine's error together with
/// the words that say what was being done.
pub fn js_context<T>(result: Result<T, rquickjs::Error>, context: &str) -> (r: Result<
    T,
    ReadabilityError,
>)
    ensures
        match result {
            Ok(value) => r == Ok::<T, ReadabilityError>(value),
            Err(source) => r matches Err(e) && e@ == (ErrorView::JsEvaluation {
                context: context@,
                source,
            }),
        },
{
    match result {
        Ok(value) => Ok(value),
        Err(source) => Err(
            ReadabilityError::JsEvaluation { context: String::from_str(context), source },
        ),
    }
}

} // verus!
