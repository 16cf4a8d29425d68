//! The article that an extraction yields, and how it is put together from
//! what the engine returned.

use vstd::prelude::*;
use vstd::string::StrSliceExecFns;
use vstd::string::StringExecFns;
use crate::error::{ErrorView, ReadabilityError};
use crate::text::{str_eq, text_view};

verus! {

/// Direction in which the text of an article runs.
#[derive(Debug, Clone, Copy, PartialEq, Eq, Structural)]
pub enum Direction {
    /// Left to right.
    Ltr,
    /// Right to left.
    Rtl,
}

/// The readable part of a page, with what is known about it.
#[derive(Debug, Clone, PartialEq)]
pub struct Article {
    /// Title of the article.
    pub title: String,
    /// The cleaned content, as HTML.
    pub content: String,
    /// The same content as plain text.
    pub text_content: String,
    /// Number of characters of `text_content`.
    pub length: u32,
    /// Author line.
    pub byline: Option<String>,
    /// Direction of the text.
    pub direction: Option<Direction>,
    /// Short description of the article.
    pub excerpt: Option<String>,
    /// Name of the site.
    pub site_name: Option<String>,
    /// Language of the content.
    pub language: Option<String>,
    /// When the article was published, as the page states it.
    pub published_time: Option<String>,
}

/// An [`Article`] with its texts as sequences of characters.
pub struct ArticleView {
    pub title: Seq<char>,
    pub content: Seq<char>,
    pub text_content: Seq<char>,
    pub length: nat,
    pub byline: Option<Seq<char>>,
    pub direction: Option<Direction>,
    pub excerpt: Option<Seq<char>>,
    pub site_name: Option<Seq<char>>,
    pub language: Option<Seq<char>>,
    pub published_time: Option<Seq<char>>,
}

impl View for Article {
    type V = ArticleView;

    open spec fn view(&self) -> ArticleView {
        ArticleView {
            title: self.title@,
            content: self.content@,
            text_content: self.text_content@,
            length: self.length as nat,
            byline: text_view(self.byline),
            direction: self.direction,
            excerpt: text_view(self.excerpt),
            site_name: text_view(self.site_name),
            language: text_view(self.language),
            published_time: text_view(self.published_time),
        }
    }
}

impl ArticleView {
    /// `length` is the number of characters of `text_content`.
    pub open spec fn wf(self) -> bool {
        self.length == self.text_content.len()
    }
}

impl Article {
    /// `length` is the number of characters of `text_content`.
    pub open spec fn wf(&self) -> bool {
        self@.wf()
    }
}

/// A result with its texts as sequences of characters.
pub open spec fn outcome_view(r: Result<Article, ReadabilityError>) -> Result<
    ArticleView,
    ErrorView,
> {
    match r {
        Ok(article) => Ok(article@),
        Err(e) => Err(e@),
    }
}

/// One property of the object that the engine returned, as far as this crate
/// looks at it: whether it is `null`, whether it is `undefined`, and what
/// reading it as a string gives.
pub struct Property {
    pub is_null: bool,
    pub is_undefined: bool,
    pub text: Result<String, rquickjs::Error>,
}

/// The outcome of looking a property up: the property, or the engine's error
/// where the lookup itself failed.
pub type Lookup = Result<Property, rquickjs::Error>;

/// The properties that this crate reads from the object that the engine
/// returned, each under the name of the script's property in the comment.
pub struct Fields {
    /// `errorType`
    pub error_type: Lookup,
    /// `error`
    pub error: Lookup,
    /// `title`
    pub title: Lookup,
    /// `byline`
    pub byline: Lookup,
    /// `dir`
    pub dir: Lookup,
    /// `content`
    pub content: Lookup,
    /// `textContent`
    pub text_content: Lookup,
    /// `excerpt`
    pub excerpt: Lookup,
    /// `siteName`
    pub site_name: Lookup,
    /// `lang`
    pub lang: Lookup,
    /// `publishedTime`
    pub published_time: Lookup,
}

/// The direction that a `dir` text names, if it names one.
pub open spec fn direction_of(text: Seq<char>) -> Option<Direction> {
    if text == "ltr"@ {
        Some(Direction::Ltr)
    } else if text == "rtl"@ {
        Some(Direction::Rtl)
    } else {
        None
    }
}

/// A text that the article cannot do without: the property must be there and
/// hold a string. `context` goes into the error otherwise.
pub open spec fn required_text(lookup: Lookup, context: Seq<char>) -> Result<Seq<char>, ErrorView> {
    match lookup {
        Err(source) => Err(ErrorView::JsEvaluation { context, source }),
        Ok(property) => match property.text {
            Ok(text) => Ok(text@),
            Err(source) => Err(ErrorView::JsEvaluation { context, source }),
        },
    }
}

/// A text that may be missing: `null` and `undefined` stand for "none";
/// anything else must be a string. A failed lookup is reported under
/// `context`, a value of another kind under `context` followed by
/// " as string".
pub open spec fn optional_text(lookup: Lookup, context: Seq<char>) -> Result<
    Option<Seq<char>>,
    ErrorView,
> {
    match lookup {
        Err(source) => Err(ErrorView::JsEvaluation { context, source }),
        Ok(property) => if property.is_null || property.is_undefined {
            Ok(None)
        } else {
            match property.text {
                Ok(text) => Ok(Some(text@)),
                Err(source) => Err(
                    ErrorView::JsEvaluation { context: context + " as string"@, source },
                ),
            }
        },
    }
}

/// The article that the fields make, or the first thing that is wrong with
/// them. The fields are taken in the order title, byline, dir, content,
/// textContent, excerpt, siteName, lang, publishedTime; the length is
/// counted right after textContent.
pub open spec fn assembled(f: Fields) -> Result<ArticleView, ErrorView> {
    match required_text(f.title, "failed to get title"@) {
        Err(e) => Err(e),
        Ok(title) => match optional_text(f.byline, "failed to get byline"@) {
            Err(e) => Err(e),
            Ok(byline) => match optional_text(f.dir, "failed to get dir"@) {
                Err(e) => Err(e),
                Ok(dir) => match required_text(f.content, "failed to get content"@) {
                    Err(e) => Err(e),
                    Ok(content) => match required_text(
                        f.text_content,
                        "failed to get text_content"@,
                    ) {
                        Err(e) => Err(e),
                        Ok(text_content) => if text_content.len() > u32::MAX {
                            Err(ErrorView::ExtractionError("text content is too long"@))
                        } else {
                            assembled_metadata(
                                f,
                                ArticleView {
                                    title,
                                    content,
                                    text_content,
                                    length: text_content.len(),
                                    byline,
                                    direction: match dir {
                                        Some(text) => direction_of(text),
                                        None => None,
                                    },
                                    excerpt: None,
                                    site_name: None,
                                    language: None,
                                    published_time: None,
                                },
                            )
                        },
                    },
                },
            },
        },
    }
}

/// The second half of [`assembled`]: the four texts that are read after the
/// length, added to the article so far.
pub open spec fn assembled_metadata(f: Fields, body: ArticleView) -> Result<ArticleView, ErrorView> {
    match optional_text(f.excerpt, "failed to get excerpt"@) {
        Err(e) => Err(e),
        Ok(excerpt) => match optional_text(f.site_name, "failed to get site_name"@) {
            Err(e) => Err(e),
            Ok(site_name) => match optional_text(f.lang, "failed to get lang"@) {
                Err(e) => Err(e),
                Ok(language) => match optional_text(
                    f.published_time,
                    "failed to get published_time"@,
                ) {
                    Err(e) => Err(e),
                    Ok(published_time) => Ok(
                        ArticleView { excerpt, site_name, language, published_time, ..body },
                    ),
                },
            },
        },
    }
}

/// The direction that a `dir` text names: `ltr` or `rtl`, nothing else.
pub fn parse_direction(text: &str) -> (r: Option<Direction>)
    ensures
        r == direction_of(text@),
{
    if str_eq(text, "ltr") {
        Some(Direction::Ltr)
    } else if str_eq(text, "rtl") {
        Some(Direction::Rtl)
    } else {
        None
    }
}

/// Reads a text that the article cannot do without.
fn take_required(lookup: Lookup, context: &str) -> (r: Result<String, ReadabilityError>)
    ensures
        match required_text(lookup, context@) {
            Ok(text) => r matches Ok(s) && s@ == text,
            Err(e) => r matches Err(err) && err@ == e,
        },
{
    match lookup {
        Err(source) => Err(
            ReadabilityError::JsEvaluation { context: String::from_str(context), source },
        ),
        Ok(property) => match property.text {
            Ok(text) => Ok(text),
            Err(source) => Err(
                ReadabilityError::JsEvaluation { context: String::from_str(context), source },
            ),
        },
    }
}

/// Reads a text that may be missing.
fn take_optional(lookup: Lookup, context: &str) -> (r: Result<Option<String>, ReadabilityError>)
    ensures
        match optional_text(lookup, context@) {
            Ok(text) => r matches Ok(s) && text_view(s) == text,
            Err(e) => r matches Err(err) && err@ == e,
        },
{
    match lookup {
        Err(source) => Err(
            ReadabilityError::JsEvaluation { context: String::from_str(context), source },
        ),
        Ok(property) => {
            if property.is_null || property.is_undefined {
                Ok(None)
            } else {
                match property.text {
                    Ok(text) => Ok(Some(text)),
                    Err(source) => Err(
                        ReadabilityError::JsEvaluation {
                            context: String::from_str(context).concat(" as string"),
                            source,
                        },
                    ),
                }
            }
        },
    }
}

impl Article {
    /// Puts the article together from the fields of the engine's answer.
    ///
    /// Fails with the first field, in the order of [`assembled`], that could
    /// not be looked up or holds a value of the wrong kind, and with an
    /// extraction error where the text has more characters than `length`
    /// can count. The article that comes out always counts its own text
    /// rightly.
    pub fn try_from(fields: Fields) -> (r: Result<Article, ReadabilityError>)
        ensures
            outcome_view(r) == assembled(fields),
            r matches Ok(article) ==> article.wf(),
    {
        let title = match take_required(fields.title, "failed to get title") {
            Ok(text) => text,
            Err(e) => { return Err(e); },
        };
        let byline = match take_optional(fields.byline, "failed to get byline") {
            Ok(text) => text,
            Err(e) => { return Err(e); },
        };
        let dir = match take_optional(fields.dir, "failed to get dir") {
            Ok(text) => text,
            Err(e) => { return Err(e); },
        };
        let direction = match &dir {
            Some(text) => parse_direction(text.as_str()),
            None => None,
        };
        let content = match take_required(fields.content, "failed to get content") {
            Ok(text) => text,
            Err(e) => { return Err(e); },
        };
        let text_content = match take_required(fields.text_content, "failed to get text_content") {
            Ok(text) => text,
            Err(e) => { return Err(e); },
        };
        let count = text_content.as_str().unicode_len();
        if count > u32::MAX as usize {
            return Err(
                ReadabilityError::ExtractionError(String::from_str("text content is too long")),
            );
        }
        let excerpt = match take_optional(fields.excerpt, "failed to get excerpt") {
            Ok(text) => text,
            Err(e) => { return Err(e); },
        };
        let site_name = match take_optional(fields.site_name, "failed to get site_name") {
            Ok(text) => text,
            Err(e) => { return Err(e); },
        };
        let language = match take_optional(fields.lang, "failed to get lang") {
            Ok(text) => text,
            Err(e) => { return Err(e); },
        };
        let published_time = match take_optional(
            fields.published_time,
            "failed to get published_time",
        ) {
            Ok(text) => text,
            Err(e) => { return Err(e); },
        };
        Ok(
            Article {
                title,
                content,
                text_content,
                length: count as u32,
                byline,
                direction,
                excerpt,
                site_name,
                language,
                published_time,
            },
        )
    }
}

} // verus!
