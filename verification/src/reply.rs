//! What the script's `extract` function returned, and what that means for
//! the caller.

use vstd::prelude::*;
use vstd::string::StringExecFns;
use crate::article::{assembled, outcome_view, Article, ArticleView, Fields, Lookup};
use crate::error::{ErrorView, ReadabilityError};
use crate::engine::unknown_error;
use crate::gate::{passes, Gate};
use crate::text::{no_markup_delimiters, str_eq};

verus! {

/// The value that the script's function returned.
pub enum Reply {
    /// Something that is no object.
    NotObject,
    /// An object, with these properties.
    Object(Fields),
}

/// The text of a property that was found and holds a string.
pub open spec fn string_of(lookup: Lookup) -> Option<Seq<char>> {
    match lookup {
        Ok(property) => match property.text {
            Ok(text) => Some(text@),
            Err(_) => None,
        },
        Err(_) => None,
    }
}

/// The message that goes with a failure that the script reported: its
/// `error` property where that is a string.
pub open spec fn failure_message(f: Fields) -> Seq<char> {
    match string_of(f.error) {
        Some(message) => message,
        None => "Unknown error"@,
    }
}

/// `e` is the error for a failure that the script reported under `tag`.
/// Each kind of error that the script can report has its tag: a parse
/// error and an extraction error keep their message, a failed readability
/// check has none to keep, and a `RuntimeError` is an error of the engine
/// (whose `source` then says nothing). Any other tag is an extraction error
/// that quotes the tag.
pub open spec fn reported_as(tag: Seq<char>, message: Seq<char>, e: ErrorView) -> bool {
    if tag == "HtmlParseError"@ {
        e == ErrorView::HtmlParseError(message)
    } else if tag == "ExtractionError"@ {
        e == ErrorView::ExtractionError(message)
    } else if tag == "RuntimeError"@ {
        e is JsEvaluation && e->context == "JavaScript runtime error: "@ + message
    } else if tag == "ReadabilityCheckFailed"@ {
        e == ErrorView::ReadabilityCheckFailed
    } else {
        e == ErrorView::ExtractionError("Unknown error type '"@ + tag + "': "@ + message)
    }
}

/// The readability check on what was assembled: an article whose text is
/// shorter than the threshold is replaced by the failure of the check;
/// anything else passes through.
pub open spec fn gated(built: Result<ArticleView, ErrorView>, char_threshold: nat) -> Result<
    ArticleView,
    ErrorView,
> {
    match built {
        Ok(article) => match Gate::Pending.settled(article.length, char_threshold) {
            Gate::Accepted => Ok(article),
            _ => Err(ErrorView::ReadabilityCheckFailed),
        },
        Err(e) => Err(e),
    }
}

/// `outcome` is what a reply means under a threshold. A reply that is no
/// object is an extraction error. An object whose `errorType` is a string
/// reports a failure, see [`reported_as`]. Any other object is read as an
/// article, see [`assembled`], and the article is held against the
/// threshold, see [`gated`].
pub open spec fn interpreted(
    reply: Reply,
    char_threshold: nat,
    outcome: Result<ArticleView, ErrorView>,
) -> bool {
    match reply {
        Reply::NotObject => outcome == Err::<ArticleView, ErrorView>(
            ErrorView::ExtractionError("Expected JavaScript object, got a different type"@),
        ),
        Reply::Object(f) => match string_of(f.error_type) {
            Some(tag) => outcome matches Err(e) && reported_as(tag, failure_message(f), e),
            None => outcome == gated(assembled(f), char_threshold),
        },
    }
}

/// The text of a property that was found and holds a string.
fn text_of(lookup: &Lookup) -> (r: Option<&str>)
    ensures
        match string_of(*lookup) {
            Some(text) => r matches Some(s) && s@ == text,
            None => r is None,
        },
{
    match lookup {
        Ok(property) => match &property.text {
            Ok(text) => Some(text.as_str()),
            Err(_) => None,
        },
        Err(_) => None,
    }
}

/// The error for a failure that the script reported under `tag`.
pub fn engine_failure(tag: &str, message: &str) -> (e: ReadabilityError)
    ensures
        reported_as(tag@, message@, e@),
{
    if str_eq(tag, "HtmlParseError") {
        ReadabilityError::HtmlParseError(String::from_str(message))
    } else if str_eq(tag, "ExtractionError") {
        ReadabilityError::ExtractionError(String::from_str(message))
    } else if str_eq(tag, "RuntimeError") {
        ReadabilityError::JsEvaluation {
            context: String::from_str("JavaScript runtime error: ").concat(message),
            source: unknown_error(),
        }
    } else if str_eq(tag, "ReadabilityCheckFailed") {
        ReadabilityError::ReadabilityCheckFailed
    } else {
        ReadabilityError::ExtractionError(
            String::from_str("Unknown error type '").concat(tag).concat("': ").concat(message),
        )
    }
}

/// Says what a reply means: the article, if the reply holds one whose text
/// has at least `char_threshold` characters, else the error that the reply
/// stands for.
pub fn interpret(reply: Reply, char_threshold: usize) -> (r: Result<Article, ReadabilityError>)
    ensures
        interpreted(reply, char_threshold as nat, outcome_view(r)),
        r matches Ok(article) ==> article.wf(),
{
    match reply {
        Reply::NotObject => Err(
            ReadabilityError::ExtractionError(
                String::from_str("Expected JavaScript object, got a different type"),
            ),
        ),
        Reply::Object(fields) => {
            if let Some(tag) = text_of(&fields.error_type) {
                let message = match text_of(&fields.error) {
                    Some(message) => message,
                    None => "Unknown error",
                };
                return Err(engine_failure(tag, message));
            }
            match Article::try_from(fields) {
                Err(e) => Err(e),
                Ok(article) => match Gate::Pending.settle(article.length as usize, char_threshold) {
                    Gate::Accepted => Ok(article),
                    _ => Err(ReadabilityError::ReadabilityCheckFailed),
                },
            }
        },
    }
}

/// An outcome that holds an article holds one that passed the check and
/// counts its own text rightly; and no reply is ever blamed on the options.
pub proof fn lemma_interpreted_outcome(
    reply: Reply,
    char_threshold: nat,
    outcome: Result<ArticleView, ErrorView>,
)
    requires
        interpreted(reply, char_threshold, outcome),
    ensures
        outcome matches Ok(article) ==> article.wf() && passes(article.length, char_threshold),
        outcome matches Err(e) ==> !(e is InvalidOptions),
{
}

/// One reply, one outcome: under one threshold, a reply means at most one
/// article, byte for byte, and whether it means an article or an error does
/// not vary. Two errors for one reply agree in kind and in message.
pub proof fn lemma_interpretation_is_determined(
    reply: Reply,
    char_threshold: nat,
    first: Result<ArticleView, ErrorView>,
    second: Result<ArticleView, ErrorView>,
)
    requires
        interpreted(reply, char_threshold, first),
        interpreted(reply, char_threshold, second),
    ensures
        first is Ok <==> second is Ok,
        first is Ok ==> first == second,
        match (first, second) {
            (Err(a), Err(b)) => a.message() == b.message() && (a is JsEvaluation || a == b),
            _ => true,
        },
{
}

/// Acceptance is monotonic in the threshold. For one reply: an article that
/// comes out under a threshold comes out unchanged under every lower one,
/// and a reply that fails the check under a threshold fails it under every
/// higher one.
pub proof fn lemma_threshold_monotonic(
    reply: Reply,
    char_threshold: nat,
    other: nat,
    outcome: Result<ArticleView, ErrorView>,
    other_outcome: Result<ArticleView, ErrorView>,
)
    requires
        interpreted(reply, char_threshold, outcome),
        interpreted(reply, other, other_outcome),
    ensures
        other <= char_threshold && outcome is Ok ==> other_outcome == outcome,
        other >= char_threshold && outcome == Err::<ArticleView, ErrorView>(
            ErrorView::ReadabilityCheckFailed,
        ) ==> other_outcome == outcome,
{
}

/// The article's text is the engine's text, and its length is counted from
/// it: where the `textContent` that the engine returned holds no markup
/// delimiter, neither does the article's `text_content`, and `length` is
/// the number of its characters in any case.
pub proof fn lemma_text_content(
    reply: Reply,
    char_threshold: nat,
    outcome: Result<ArticleView, ErrorView>,
)
    requires
        interpreted(reply, char_threshold, outcome),
        match reply {
            Reply::Object(f) => match string_of(f.text_content) {
                Some(text) => no_markup_delimiters(text),
                None => true,
            },
            Reply::NotObject => true,
        },
    ensures
        outcome matches Ok(article) ==> no_markup_delimiters(article.text_content)
            && article.length == article.text_content.len(),
{
}

} // verus!
