//! What a caller can ask of an extraction, and what of it is handed to the
//! engine.

use vstd::prelude::*;
use vstd::string::StringExecFns;
use crate::engine::{
    ctx_json_parse, object_new, object_set_count, object_set_flag, object_set_names,
    object_set_value,
};
use crate::error::{is_engine_error, js_context, ReadabilityError};
use crate::gate::DEFAULT_CHAR_THRESHOLD;
use crate::text::{decimal, decimal_text};

verus! {

/// Options of one extraction. A field that is `None` leaves the matter to
/// the engine's script, except for `char_threshold`, which this crate also
/// applies itself (see [`ReadabilityOptions::effective_char_threshold`]).
#[derive(Debug, Clone)]
pub struct ReadabilityOptions {
    /// Most elements that the script may visit; 0 means no limit.
    pub max_elems_to_parse: Option<usize>,
    /// How many of the best candidates the script compares.
    pub nb_top_candidates: Option<usize>,
    /// Fewest characters of text that an article must have.
    pub char_threshold: Option<usize>,
    /// Class names that survive the cleaning.
    pub classes_to_preserve: Option<Vec<String>>,
    /// Whether all class names survive the cleaning.
    pub keep_classes: Option<bool>,
    /// Whether structured metadata blocks are left unread.
    pub disable_jsonld: Option<bool>,
    /// Factor on the link density that is tolerated, in thousandths: 1000
    /// stands for 1.0, and more is more permissive.
    pub link_density_modifier: Option<u32>,
}

/// The value of one option as the engine gets it.
#[derive(Debug, Clone)]
pub enum OptionValue {
    /// A whole number.
    Count(usize),
    /// A boolean.
    Flag(bool),
    /// A list of strings.
    Names(Vec<String>),
    /// The number that is a thousandth of the one given.
    Thousandths(u32),
}

/// One property of the options object that the engine gets.
#[derive(Debug, Clone)]
pub struct OptionEntry {
    /// Name of the property, as the script knows it.
    pub name: String,
    /// Its value.
    pub value: OptionValue,
}

/// An [`OptionValue`] with its texts as sequences of characters.
pub enum OptionValueView {
    Count(nat),
    Flag(bool),
    Names(Seq<Seq<char>>),
    Thousandths(nat),
}

/// An [`OptionEntry`] with its texts as sequences of characters.
pub struct OptionEntryView {
    pub name: Seq<char>,
    pub value: OptionValueView,
}

impl View for OptionValue {
    type V = OptionValueView;

    open spec fn view(&self) -> OptionValueView {
        match self {
            OptionValue::Count(n) => OptionValueView::Count(*n as nat),
            OptionValue::Flag(b) => OptionValueView::Flag(*b),
            OptionValue::Names(names) => OptionValueView::Names(names.deep_view()),
            OptionValue::Thousandths(n) => OptionValueView::Thousandths(*n as nat),
        }
    }
}

impl View for OptionEntry {
    type V = OptionEntryView;

    open spec fn view(&self) -> OptionEntryView {
        OptionEntryView { name: self.name@, value: self.value@ }
    }
}

/// The entries of a list, each by its view.
pub open spec fn entries_view(entries: Seq<OptionEntry>) -> Seq<OptionEntryView> {
    entries.map_values(|e: OptionEntry| e@)
}

/// No entry, or the one entry that hands over a number that was set.
pub open spec fn count_entry(name: Seq<char>, value: Option<usize>) -> Seq<OptionEntryView> {
    match value {
        Some(n) => seq![OptionEntryView { name, value: OptionValueView::Count(n as nat) }],
        None => seq![],
    }
}

/// No entry, or the one entry that hands over a boolean that was set.
pub open spec fn flag_entry(name: Seq<char>, value: Option<bool>) -> Seq<OptionEntryView> {
    match value {
        Some(b) => seq![OptionEntryView { name, value: OptionValueView::Flag(b) }],
        None => seq![],
    }
}

/// No entry, or the one entry that hands over a list of names that was set.
pub open spec fn names_entry(name: Seq<char>, value: Option<Vec<String>>) -> Seq<OptionEntryView> {
    match value {
        Some(names) => seq![
            OptionEntryView { name, value: OptionValueView::Names(names.deep_view()) },
        ],
        None => seq![],
    }
}

/// No entry, or the one entry that hands over a factor that was set.
pub open spec fn thousandths_entry(name: Seq<char>, value: Option<u32>) -> Seq<OptionEntryView> {
    match value {
        Some(n) => seq![OptionEntryView { name, value: OptionValueView::Thousandths(n as nat) }],
        None => seq![],
    }
}

impl ReadabilityOptions {
    /// Options with nothing set.
    pub open spec fn unset() -> ReadabilityOptions {
        ReadabilityOptions {
            max_elems_to_parse: None,
            nb_top_candidates: None,
            char_threshold: None,
            classes_to_preserve: None,
            keep_classes: None,
            disable_jsonld: None,
            link_density_modifier: None,
        }
    }

    /// The threshold that the readability check uses: the one that was set,
    /// else the default.
    pub open spec fn threshold(self) -> nat {
        match self.char_threshold {
            Some(n) => n as nat,
            None => DEFAULT_CHAR_THRESHOLD as nat,
        }
    }

    /// What is handed to the engine: one entry for each option that was set,
    /// under the script's name for it, in a fixed order.
    pub open spec fn handed_over(self) -> Seq<OptionEntryView> {
        count_entry("maxElemsToParse"@, self.max_elems_to_parse) + count_entry(
            "nbTopCandidates"@,
            self.nb_top_candidates,
        ) + count_entry("charThreshold"@, self.char_threshold) + names_entry(
            "classesToPreserve"@,
            self.classes_to_preserve,
        ) + flag_entry("keepClasses"@, self.keep_classes) + flag_entry(
            "disableJSONLD"@,
            self.disable_jsonld,
        ) + thousandths_entry("linkDensityModifier"@, self.link_density_modifier)
    }

    /// Options with nothing set.
    pub fn new() -> (r: Self)
        ensures
            r == Self::unset(),
    {
        ReadabilityOptions {
            max_elems_to_parse: None,
            nb_top_candidates: None,
            char_threshold: None,
            classes_to_preserve: None,
            keep_classes: None,
            disable_jsonld: None,
            link_density_modifier: None,
        }
    }

    /// Sets the most elements that the script may visit; 0 means no limit.
    pub fn max_elems_to_parse(self, val: usize) -> (r: Self)
        ensures
            r == (ReadabilityOptions { max_elems_to_parse: Some(val), ..self }),
    {
        ReadabilityOptions { max_elems_to_parse: Some(val), ..self }
    }

    /// Sets how many of the best candidates the script compares.
    pub fn nb_top_candidates(self, val: usize) -> (r: Self)
        ensures
            r == (ReadabilityOptions { nb_top_candidates: Some(val), ..self }),
    {
        ReadabilityOptions { nb_top_candidates: Some(val), ..self }
    }

    /// Sets the fewest characters of text that an article must have.
    pub fn char_threshold(self, val: usize) -> (r: Self)
        ensures
            r == (ReadabilityOptions { char_threshold: Some(val), ..self }),
    {
        ReadabilityOptions { char_threshold: Some(val), ..self }
    }

    /// Sets the class names that survive the cleaning.
    pub fn classes_to_preserve(self, val: Vec<String>) -> (r: Self)
        ensures
            r == (ReadabilityOptions { classes_to_preserve: Some(val), ..self }),
    {
        ReadabilityOptions { classes_to_preserve: Some(val), ..self }
    }

    /// Sets whether all class names survive the cleaning.
    pub fn keep_classes(self, val: bool) -> (r: Self)
        ensures
            r == (ReadabilityOptions { keep_classes: Some(val), ..self }),
    {
        ReadabilityOptions { keep_classes: Some(val), ..self }
    }

    /// Sets whether structured metadata blocks are left unread.
    pub fn disable_jsonld(self, val: bool) -> (r: Self)
        ensures
            r == (ReadabilityOptions { disable_jsonld: Some(val), ..self }),
    {
        ReadabilityOptions { disable_jsonld: Some(val), ..self }
    }

    /// Sets the factor on the tolerated link density, in thousandths: 1000
    /// stands for 1.0.
    pub fn link_density_modifier(self, thousandths: u32) -> (r: Self)
        ensures
            r == (ReadabilityOptions { link_density_modifier: Some(thousandths), ..self }),
    {
        ReadabilityOptions { link_density_modifier: Some(thousandths), ..self }
    }

    /// The threshold that the readability check uses: the one that was set,
    /// else the default.
    pub fn effective_char_threshold(&self) -> (r: usize)
        ensures
            r as nat == self.threshold(),
    {
        match self.char_threshold {
            Some(n) => n,
            None => DEFAULT_CHAR_THRESHOLD,
        }
    }

    /// What is handed to the engine: one entry for each option that was set,
    /// under the script's name for it, in a fixed order.
    pub fn entries(&self) -> (r: Vec<OptionEntry>)
        ensures
            entries_view(r@) == self.handed_over(),
    {
        let mut list: Vec<OptionEntry> = Vec::new();
        push_count(&mut list, "maxElemsToParse", self.max_elems_to_parse);
        push_count(&mut list, "nbTopCandidates", self.nb_top_candidates);
        push_count(&mut list, "charThreshold", self.char_threshold);
        push_names(&mut list, "classesToPreserve", &self.classes_to_preserve);
        push_flag(&mut list, "keepClasses", self.keep_classes);
        push_flag(&mut list, "disableJSONLD", self.disable_jsonld);
        push_thousandths(&mut list, "linkDensityModifier", self.link_density_modifier);
        list
    }
}

/// The words that say which option could not be set.
pub open spec fn set_context(name: Seq<char>) -> Seq<char> {
    "failed to set "@ + name + " option"@
}

/// The JSON text of the number that is `n` thousandths.
pub open spec fn thousandths_json(n: nat) -> Seq<char> {
    decimal(n) + "e-3"@
}

/// The error is the engine's, for the options object itself or for one of
/// its entries.
pub open spec fn options_refused(entries: Seq<OptionEntryView>, e: ReadabilityError) -> bool {
    is_engine_error(e, "failed to create options object"@) || exists|i: int|
        0 <= i < entries.len() && is_engine_error(e, set_context(#[trigger] entries[i].name))
}

/// Writes `n` thousandths as a JSON number.
pub fn thousandths_text(n: u32) -> (r: String)
    ensures
        r@ == thousandths_json(n as nat),
{
    decimal_text(n).concat("e-3")
}

/// Sets one property of the options object. A factor goes over as the
/// number that its JSON text denotes.
fn set_option<'js>(
    ctx: &rquickjs::Ctx<'js>,
    obj: &rquickjs::Object<'js>,
    entry: &OptionEntry,
) -> (r: Result<(), rquickjs::Error>) {
    let name = entry.name.as_str();
    match &entry.value {
        OptionValue::Count(n) => object_set_count(obj, name, *n),
        OptionValue::Flag(b) => object_set_flag(obj, name, *b),
        OptionValue::Names(names) => object_set_names(obj, name, names),
        OptionValue::Thousandths(n) => {
            let json = thousandths_text(*n);
            match ctx_json_parse(ctx, json.as_str()) {
                Ok(number) => object_set_value(obj, name, number),
                Err(e) => Err(e),
            }
        },
    }
}

impl ReadabilityOptions {
    /// Makes the options object for the engine: a new object with one
    /// property for each option that was set, see
    /// [`ReadabilityOptions::entries`], set in that order.
    pub(crate) fn build<'js>(&self, ctx: &rquickjs::Ctx<'js>) -> (r: Result<
        rquickjs::Object<'js>,
        ReadabilityError,
    >)
        ensures
            r matches Err(e) ==> options_refused(self.handed_over(), e),
    {
        let obj = match js_context(object_new(ctx), "failed to create options object") {
            Ok(obj) => obj,
            Err(e) => { return Err(e); },
        };
        let entries = self.entries();
        let mut i: usize = 0;
        while i < entries.len()
            invariant
                i <= entries.len(),
                entries_view(entries@) == self.handed_over(),
            decreases entries.len() - i,
        {
            let entry = &entries[i];
            match set_option(ctx, &obj, entry) {
                Ok(()) => {},
                Err(source) => {
                    let context = String::from_str("failed to set ").concat(
                        entry.name.as_str(),
                    ).concat(" option");
                    proof {
                        assert(self.handed_over()[i as int].name == entry.name@);
                    }
                    return Err(ReadabilityError::JsEvaluation { context, source });
                },
            }
            i = i + 1;
        }
        Ok(obj)
    }
}

impl Default for ReadabilityOptions {
    fn default() -> (r: Self)
        ensures
            r == Self::unset(),
    {
        ReadabilityOptions::new()
    }
}

/// Adds one entry at the end of the list.
fn push_entry(list: &mut Vec<OptionEntry>, name: &str, value: OptionValue)
    ensures
        entries_view(final(list)@) == entries_view(old(list)@).push(
            OptionEntryView { name: name@, value: value@ },
        ),
{
    list.push(OptionEntry { name: String::from_str(name), value });
}

/// Adds the entry for a number, if one was set.
fn push_count(list: &mut Vec<OptionEntry>, name: &str, value: Option<usize>)
    ensures
        entries_view(final(list)@) == entries_view(old(list)@) + count_entry(name@, value),
{
    if let Some(n) = value {
        push_entry(list, name, OptionValue::Count(n));
    }
}

/// Adds the entry for a boolean, if one was set.
fn push_flag(list: &mut Vec<OptionEntry>, name: &str, value: Option<bool>)
    ensures
        entries_view(final(list)@) == entries_view(old(list)@) + flag_entry(name@, value),
{
    if let Some(b) = value {
        push_entry(list, name, OptionValue::Flag(b));
    }
}

/// Adds the entry for a list of names, if one was set.
fn push_names(list: &mut Vec<OptionEntry>, name: &str, value: &Option<Vec<String>>)
    ensures
        entries_view(final(list)@) == entries_view(old(list)@) + names_entry(name@, *value),
{
    if let Some(names) = value {
        push_entry(list, name, OptionValue::Names(clone_names(names)));
    }
}

/// Adds the entry for a factor, if one was set.
fn push_thousandths(list: &mut Vec<OptionEntry>, name: &str, value: Option<u32>)
    ensures
        entries_view(final(list)@) == entries_view(old(list)@) + thousandths_entry(name@, value),
{
    if let Some(n) = value {
        push_entry(list, name, OptionValue::Thousandths(n));
    }
}

/// A copy of a list of names.
pub fn clone_names(names: &Vec<String>) -> (r: Vec<String>)
    ensures
        r.deep_view() == names.deep_view(),
{
    let mut copy: Vec<String> = Vec::new();
    let mut i: usize = 0;
    while i < names.len()
        invariant
            i <= names.len(),
            copy.len() == i,
            forall|j: int| 0 <= j < i ==> copy@[j]@ == names@[j]@,
        decreases names.len() - i,
    {
        copy.push(names[i].clone());
        i = i + 1;
    }
    copy
}

} // verus!
