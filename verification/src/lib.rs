//! Reader-mode extraction of the article in a web page.
//!
//! The extraction itself is done by a script that runs in an embedded
//! JavaScript engine. A [`Readability`] holds such an engine with the
//! script loaded; its `parse` methods put a document before the script and
//! return an [`Article`] or a [`ReadabilityError`].
//!
//! What the script finds is up to the script. This crate is the shell
//! around it, and its contracts say what the shell does for every answer
//! that the script can give: which base URLs are accepted
//! ([`validate_base_url`]), which documents are refused without asking,
//! which options are handed over ([`ReadabilityOptions::entries`]), and what
//! an answer means ([`interpret`]), up to the check that the text is long
//! enough ([`Gate`]).

pub mod text;
pub mod error;
pub mod article;
pub mod gate;
pub mod options;
pub mod web;
pub mod source;
mod engine;
pub mod reply;
pub mod readability;

pub use article::{Article, ArticleView, Direction, Fields, Lookup, Property};
pub use error::{ErrorView, ReadabilityError};
pub use gate::Gate;
pub use options::{OptionEntry, OptionValue, ReadabilityOptions};
pub use readability::Readability;
pub use reply::{interpret, Reply};
pub use source::{choose_source, HtmlSource};
pub use web::{try_parse_url, validate_base_url, UrlParts};
