//! Where the HTML of a run comes from.

use vstd::prelude::*;
use vstd::string::StringExecFns;
use crate::web::{parsed_url, remote_address, try_parse_url};

verus! {

/// The place to take the HTML from.
#[derive(Debug, Clone, PartialEq, Eq)]
pub enum HtmlSource {
    /// Standard input.
    Stdin,
    /// The file of this name.
    File(String),
    /// The page at this address, which is also the base URL.
    Remote(String),
    /// Nothing: the input names neither a file nor a page.
    NotFound(String),
}

/// An [`HtmlSource`] with its texts as sequences of characters.
pub enum HtmlSourceView {
    Stdin,
    File(Seq<char>),
    Remote(Seq<char>),
    NotFound(Seq<char>),
}

impl View for HtmlSource {
    type V = HtmlSourceView;

    open spec fn view(&self) -> HtmlSourceView {
        match self {
            HtmlSource::Stdin => HtmlSourceView::Stdin,
            HtmlSource::File(path) => HtmlSourceView::File(path@),
            HtmlSource::Remote(url) => HtmlSourceView::Remote(url@),
            HtmlSource::NotFound(input) => HtmlSourceView::NotFound(input@),
        }
    }
}

/// The source that an input stands for. Without input it is standard
/// input. An input that names an existing file is that file. Any other
/// input is the page it stands for (see [`remote_address`]), and not found
/// where it stands for none.
pub open spec fn source_for(input: Option<Seq<char>>, is_file: bool) -> HtmlSourceView {
    match input {
        None => HtmlSourceView::Stdin,
        Some(name) => if is_file {
            HtmlSourceView::File(name)
        } else {
            match remote_address(parsed_url(name), parsed_url("https://"@ + name)) {
                Some(url) => HtmlSourceView::Remote(url),
                None => HtmlSourceView::NotFound(name),
            }
        },
    }
}

/// The characters of an input that may be absent.
pub open spec fn input_view(input: Option<&str>) -> Option<Seq<char>> {
    match input {
        Some(name) => Some(name@),
        None => None,
    }
}

/// Decides where the HTML comes from. `is_file` says whether `input` names
/// an existing file; it is not looked at where there is no input.
pub fn choose_source(input: Option<&str>, is_file: bool) -> (r: HtmlSource)
    ensures
        r@ == source_for(input_view(input), is_file),
{
    match input {
        None => HtmlSource::Stdin,
        Some(name) => {
            if is_file {
                HtmlSource::File(String::from_str(name))
            } else {
                match try_parse_url(name) {
                    Some(url) => HtmlSource::Remote(url),
                    None => HtmlSource::NotFound(String::from_str(name)),
                }
            }
        },
    }
}

} // verus!
