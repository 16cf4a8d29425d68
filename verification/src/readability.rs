//! The extractor: an engine with the extraction script loaded, and the
//! steps of one extraction.

use vstd::prelude::*;
use vstd::string::StringExecFns;
use crate::article::{outcome_view, Article, Fields, Lookup, Property};
use crate::engine::{
    context_full, ctx_eval, ctx_globals, function_call, in_context, object_get, runtime_new,
    value_as_object, value_get_function, value_get_string, value_is_null, value_is_undefined,
};
use crate::error::{is_engine_error, js_context, ErrorView, ReadabilityError};
use crate::gate::{passes, DEFAULT_CHAR_THRESHOLD};
use crate::options::{options_refused, ReadabilityOptions};
use crate::reply::{interpret, interpreted, lemma_interpreted_outcome, Reply};
use crate::text::{contains_element_markup, has_element_markup};
use crate::web::{base_url_verdict, parsed_url, validate_base_url};

verus! {

/// An engine that has the extraction script loaded. Making one is costly;
/// make it once and use it for many documents.
pub struct Readability {
    context: rquickjs::Context,
}

/// How loading the two scripts can end: well, or with the engine's error
/// for the first script that failed.
pub open spec fn loaded(r: Result<(), ReadabilityError>) -> bool {
    r matches Err(e) ==> is_engine_error(e, "Failed to load Readability"@) || is_engine_error(
        e,
        "Failed to load bundle"@,
    )
}

/// Runs the two scripts, one after the other, in the context.
fn load_scripts<'js>(ctx: rquickjs::Ctx<'js>, readability_code: &str, bundle: &str) -> (r: Result<
    (),
    ReadabilityError,
>)
    ensures
        loaded(r),
{
    match js_context(ctx_eval(&ctx, readability_code), "Failed to load Readability") {
        Ok(()) => {},
        Err(e) => { return Err(e); },
    }
    js_context(ctx_eval(&ctx, bundle), "Failed to load bundle")
}

/// The error is the engine's, for one of the steps of a call of the
/// script's function: finding the function, making the options object, or
/// the call itself.
pub open spec fn call_failed(options: Option<ReadabilityOptions>, e: ReadabilityError) -> bool {
    ||| is_engine_error(e, "extract function not found"@)
    ||| is_engine_error(e, "Failed to call extract"@)
    ||| (options is Some && options_refused(options->0.handed_over(), e))
}

/// How a call of the script's function can end: with what it returned, or
/// with the engine's error for the step that failed.
pub open spec fn conversed(
    options: Option<ReadabilityOptions>,
    r: Result<Reply, ReadabilityError>,
) -> bool {
    r matches Err(e) ==> call_failed(options, e)
}

/// The result is what the engine's answer to one call means: the engine's
/// error where the call failed, else what [`interpreted`] says of some
/// reply under the options' threshold.
pub open spec fn answered(
    options: Option<ReadabilityOptions>,
    r: Result<Article, ReadabilityError>,
) -> bool {
    ||| (r is Err && call_failed(options, r->Err_0))
    ||| exists|reply: Reply| #[trigger] interpreted(reply, threshold_of(options), outcome_view(r))
}

/// Looks one property of the returned object up.
fn look_up<'js>(obj: &rquickjs::Object<'js>, key: &str) -> (r: Lookup) {
    match object_get(obj, key) {
        Err(e) => Err(e),
        Ok(value) => Ok(
            Property {
                is_null: value_is_null(&value),
                is_undefined: value_is_undefined(&value),
                text: value_get_string(&value),
            },
        ),
    }
}

/// Reads off a returned value what this crate looks at.
fn read_reply<'js>(value: &rquickjs::Value<'js>) -> (r: Reply) {
    match value_as_object(value) {
        None => Reply::NotObject,
        Some(obj) => Reply::Object(
            Fields {
                error_type: look_up(obj, "errorType"),
                error: look_up(obj, "error"),
                title: look_up(obj, "title"),
                byline: look_up(obj, "byline"),
                dir: look_up(obj, "dir"),
                content: look_up(obj, "content"),
                text_content: look_up(obj, "textContent"),
                excerpt: look_up(obj, "excerpt"),
                site_name: look_up(obj, "siteName"),
                lang: look_up(obj, "lang"),
                published_time: look_up(obj, "publishedTime"),
            },
        ),
    }
}

/// One call of the script's function `extract`: finds the function, makes
/// the options object where there are options, calls the function with the
/// document, the base URL and the options, and reads the answer off.
fn converse<'js>(
    ctx: rquickjs::Ctx<'js>,
    html: &str,
    base_url: Option<&str>,
    options: &Option<ReadabilityOptions>,
) -> (r: Result<Reply, ReadabilityError>)
    ensures
        conversed(*options, r),
{
    let globals = ctx_globals(&ctx);
    let found = match object_get(&globals, "extract") {
        Ok(value) => value_get_function(&value),
        Err(e) => Err(e),
    };
    let extract_fn = match js_context(found, "extract function not found") {
        Ok(function) => function,
        Err(e) => { return Err(e); },
    };
    let options_obj = match options {
        None => None,
        Some(options) => match options.build(&ctx) {
            Ok(obj) => Some(obj),
            Err(e) => { return Err(e); },
        },
    };
    let called = function_call(&extract_fn, html, base_url, options_obj);
    match js_context(called, "Failed to call extract") {
        Ok(value) => Ok(read_reply(&value)),
        Err(e) => Err(e),
    }
}

/// The text of a string that may be absent.
fn as_text(text: &Option<String>) -> (r: Option<&str>)
    ensures
        match *text {
            Some(s) => r matches Some(t) && t@ == s@,
            None => r is None,
        },
{
    match text {
        Some(s) => Some(s.as_str()),
        None => None,
    }
}

/// Why a base URL is refused, if it is: see [`base_url_verdict`]. No base
/// URL is always fine.
pub open spec fn base_url_refusal(base_url: Option<&str>) -> Option<ErrorView> {
    match base_url {
        Some(url) => match base_url_verdict(url@, parsed_url(url@)) {
            Err(e) => Some(e),
            Ok(_) => None,
        },
        None => None,
    }
}

/// The threshold of the readability check under these options.
pub open spec fn threshold_of(options: Option<ReadabilityOptions>) -> nat {
    match options {
        Some(o) => o.threshold(),
        None => DEFAULT_CHAR_THRESHOLD as nat,
    }
}

/// The result is this error.
pub open spec fn failed_with(r: Result<Article, ReadabilityError>, e: ErrorView) -> bool {
    r is Err && r->Err_0@ == e
}

/// What every extraction keeps to, whatever the engine answers.
///
/// A base URL that is refused ends the extraction with that refusal, and
/// nothing else is ever blamed on the options. With the base URL in order,
/// a document without a single start tag is a parse error. Every other
/// document is put before the engine, and the result is what the engine's
/// answer means. An article that comes out counts its own text rightly and
/// has passed the readability check under the options' threshold.
pub open spec fn extracted(
    html: Seq<char>,
    base_url: Option<&str>,
    options: Option<ReadabilityOptions>,
    r: Result<Article, ReadabilityError>,
) -> bool {
    &&& match base_url_refusal(base_url) {
        Some(refusal) => failed_with(r, refusal),
        None => if has_element_markup(html) {
            answered(options, r)
        } else {
            failed_with(r, ErrorView::HtmlParseError("document has no elements"@))
        },
    }
    &&& r is Err && r->Err_0@ is InvalidOptions ==> base_url_refusal(base_url) is Some
    &&& r matches Ok(article) ==> article.wf() && passes(
        article.length as nat,
        threshold_of(options),
    )
}

impl Readability {
    /// Starts an engine and runs the two scripts in it: first the one that
    /// defines the extraction algorithm, then the one that defines the
    /// function `extract` on top of it.
    ///
    /// Whether this succeeds is up to the engine and the scripts; if it
    /// fails, the error is the engine's, and names the step that failed.
    pub fn new(readability_code: &str, bundle: &str) -> (r: Result<Readability, ReadabilityError>)
        ensures
            r matches Err(e) ==> {
                ||| is_engine_error(e, "Failed to create runtime"@)
                ||| is_engine_error(e, "Failed to create context"@)
                ||| is_engine_error(e, "Failed to load Readability"@)
                ||| is_engine_error(e, "Failed to load bundle"@)
            },
    {
        let runtime = match js_context(runtime_new(), "Failed to create runtime") {
            Ok(runtime) => runtime,
            Err(e) => { return Err(e); },
        };
        let context = match js_context(context_full(&runtime), "Failed to create context") {
            Ok(context) => context,
            Err(e) => { return Err(e); },
        };
        let load = |ctx: rquickjs::Ctx| -> (r: Result<(), ReadabilityError>)
            ensures
                loaded(r),
            { load_scripts(ctx, readability_code, bundle) };
        match in_context(&context, load) {
            Ok(()) => Ok(Readability { context }),
            Err(e) => Err(e),
        }
    }

    /// Extracts the article of a document.
    pub fn parse(&self, html: &str) -> (r: Result<Article, ReadabilityError>)
        ensures
            extracted(html@, None, None, r),
    {
        self.extract(html, None, None)
    }

    /// Extracts the article of a document that was found at `base_url`.
    pub fn parse_with_url(&self, html: &str, base_url: &str) -> (r: Result<
        Article,
        ReadabilityError,
    >)
        ensures
            extracted(html@, Some(base_url), None, r),
    {
        self.extract(html, Some(base_url), None)
    }

    /// Extracts the article of a document under the given options.
    pub fn parse_with_options(
        &self,
        html: &str,
        base_url: Option<&str>,
        options: Option<ReadabilityOptions>,
    ) -> (r: Result<Article, ReadabilityError>)
        ensures
            extracted(html@, base_url, options, r),
    {
        self.extract(html, base_url, options)
    }

    /// Extracts the article of a document.
    ///
    /// The base URL is checked first, then the document must hold at
    /// least one start tag. Only then the script is asked; what it
    /// answers is turned into the result by [`interpret`], under the
    /// threshold of the options. See [`extracted`] for what holds of the
    /// result whatever the script answers.
    pub fn extract(
        &self,
        html: &str,
        base_url: Option<&str>,
        options: Option<ReadabilityOptions>,
    ) -> (r: Result<Article, ReadabilityError>)
        ensures
            extracted(html@, base_url, options, r),
    {
        let clean_base_url = match base_url {
            None => None,
            Some(url) => match validate_base_url(url) {
                Ok(clean) => Some(clean),
                Err(e) => { return Err(e); },
            },
        };
        if !contains_element_markup(html) {
            return Err(
                ReadabilityError::HtmlParseError(String::from_str("document has no elements")),
            );
        }
        let char_threshold = match &options {
            Some(o) => o.effective_char_threshold(),
            None => DEFAULT_CHAR_THRESHOLD,
        };
        let clean = as_text(&clean_base_url);
        let ask = |ctx: rquickjs::Ctx| -> (r: Result<Reply, ReadabilityError>)
            ensures
                conversed(options, r),
            { converse(ctx, html, clean, &options) };
        let reply = match in_context(&self.context, ask) {
            Ok(reply) => reply,
            Err(e) => { return Err(e); },
        };
        let r = interpret(reply, char_threshold);
        proof {
            assert(interpreted(reply, threshold_of(options), outcome_view(r)));
            lemma_interpreted_outcome(reply, char_threshold as nat, outcome_view(r));
        }
        r
    }
}

} // verus!
