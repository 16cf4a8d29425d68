//! Options and what is handed over of them, and the small text operations.

use readability_js::options::thousandths_text;
use readability_js::text::{
    chars_of, contains_char, contains_double_dot, contains_element_markup, decimal_text,
    starts_with, str_eq,
};
use readability_js::{OptionEntry, OptionValue, ReadabilityOptions};

fn handed_over(options: &ReadabilityOptions) -> Vec<(String, String)> {
    options
        .entries()
        .into_iter()
        .map(|OptionEntry { name, value }| (name, format!("{:?}", value)))
        .collect()
}

#[test]
fn new_options_have_nothing_set() {
    for options in [ReadabilityOptions::new(), ReadabilityOptions::default()] {
        assert_eq!(options.max_elems_to_parse, None);
        assert_eq!(options.nb_top_candidates, None);
        assert_eq!(options.char_threshold, None);
        assert_eq!(options.classes_to_preserve, None);
        assert_eq!(options.keep_classes, None);
        assert_eq!(options.disable_jsonld, None);
        assert_eq!(options.link_density_modifier, None);
        assert!(options.entries().is_empty());
    }
}

#[test]
fn each_builder_sets_its_own_field() {
    let options = ReadabilityOptions::new().max_elems_to_parse(0);
    assert_eq!(options.max_elems_to_parse, Some(0));
    assert_eq!(handed_over(&options).len(), 1);
    let options = ReadabilityOptions::new().nb_top_candidates(5);
    assert_eq!(options.nb_top_candidates, Some(5));
    let options = ReadabilityOptions::new().char_threshold(500);
    assert_eq!(options.char_threshold, Some(500));
    let options = ReadabilityOptions::new().classes_to_preserve(vec!["a".to_string()]);
    assert_eq!(options.classes_to_preserve, Some(vec!["a".to_string()]));
    let options = ReadabilityOptions::new().keep_classes(false);
    assert_eq!(options.keep_classes, Some(false));
    let options = ReadabilityOptions::new().disable_jsonld(true);
    assert_eq!(options.disable_jsonld, Some(true));
    let options = ReadabilityOptions::new().link_density_modifier(2000);
    assert_eq!(options.link_density_modifier, Some(2000));
}

#[test]
fn a_builder_leaves_the_other_fields_alone() {
    let options = ReadabilityOptions::new()
        .char_threshold(500)
        .nb_top_candidates(10)
        .keep_classes(true)
        .classes_to_preserve(vec!["highlight".to_string(), "code".to_string()]);
    assert_eq!(options.char_threshold, Some(500));
    assert_eq!(options.nb_top_candidates, Some(10));
    assert_eq!(options.keep_classes, Some(true));
    assert_eq!(
        options.classes_to_preserve,
        Some(vec!["highlight".to_string(), "code".to_string()])
    );
    assert_eq!(options.max_elems_to_parse, None);
    assert_eq!(options.disable_jsonld, None);
    assert_eq!(options.link_density_modifier, None);
    let again = options.char_threshold(1);
    assert_eq!(again.char_threshold, Some(1));
    assert_eq!(again.nb_top_candidates, Some(10));
}

#[test]
fn the_threshold_is_the_one_that_was_set_or_140() {
    assert_eq!(ReadabilityOptions::new().effective_char_threshold(), 140);
    assert_eq!(ReadabilityOptions::new().char_threshold(0).effective_char_threshold(), 0);
    assert_eq!(ReadabilityOptions::new().char_threshold(141).effective_char_threshold(), 141);
    assert_eq!(
        ReadabilityOptions::new().nb_top_candidates(7).effective_char_threshold(),
        140
    );
}

#[test]
fn entries_come_in_a_fixed_order_under_the_names_of_the_script() {
    let options = ReadabilityOptions::new()
        .link_density_modifier(750)
        .disable_jsonld(true)
        .keep_classes(false)
        .classes_to_preserve(vec!["highlight".to_string()])
        .char_threshold(20)
        .nb_top_candidates(3)
        .max_elems_to_parse(9);
    assert_eq!(
        handed_over(&options),
        vec![
            ("maxElemsToParse".to_string(), "Count(9)".to_string()),
            ("nbTopCandidates".to_string(), "Count(3)".to_string()),
            ("charThreshold".to_string(), "Count(20)".to_string()),
            ("classesToPreserve".to_string(), "Names([\"highlight\"])".to_string()),
            ("keepClasses".to_string(), "Flag(false)".to_string()),
            ("disableJSONLD".to_string(), "Flag(true)".to_string()),
            ("linkDensityModifier".to_string(), "Thousandths(750)".to_string()),
        ]
    );
}

#[test]
fn only_what_was_set_is_handed_over() {
    let options = ReadabilityOptions::new().keep_classes(true);
    let entries = options.entries();
    assert_eq!(entries.len(), 1);
    assert_eq!(entries[0].name, "keepClasses");
    assert!(matches!(entries[0].value, OptionValue::Flag(true)));
    let options = ReadabilityOptions::new().classes_to_preserve(Vec::new());
    let entries = options.entries();
    assert_eq!(entries.len(), 1);
    assert!(matches!(&entries[0].value, OptionValue::Names(names) if names.is_empty()));
}

#[test]
fn thousandths_are_written_with_an_exponent() {
    assert_eq!(thousandths_text(0), "0e-3");
    assert_eq!(thousandths_text(7), "7e-3");
    assert_eq!(thousandths_text(1000), "1000e-3");
    assert_eq!(thousandths_text(1500), "1500e-3");
    assert_eq!(thousandths_text(u32::MAX), "4294967295e-3");
}

#[test]
fn numbers_are_written_in_base_ten() {
    for n in [0u32, 1, 9, 10, 11, 99, 100, 101, 12345, 1_000_000, 4_294_967_295] {
        assert_eq!(decimal_text(n), n.to_string());
    }
}

#[test]
fn a_prefix_is_found_only_at_the_start() {
    assert!(starts_with("javascript:alert(1)", "javascript:"));
    assert!(starts_with("data:", "data:"));
    assert!(starts_with("anything", ""));
    assert!(starts_with("", ""));
    assert!(!starts_with("data", "data:"));
    assert!(!starts_with(" data:x", "data:"));
    assert!(!starts_with("Data:x", "data:"));
    assert!(!starts_with("", "x"));
    assert!(starts_with("\u{e9}t\u{e9}", "\u{e9}t"));
    assert!(!starts_with("\u{e9}t\u{e9}", "e"));
}

#[test]
fn texts_are_equal_character_by_character() {
    assert!(str_eq("", ""));
    assert!(str_eq("ltr", "ltr"));
    assert!(!str_eq("ltr", "rtl"));
    assert!(!str_eq("ltr", "ltr "));
    assert!(!str_eq("e\u{301}", "\u{e9}"));
}

#[test]
fn the_characters_of_a_text_come_in_order() {
    assert_eq!(chars_of(""), Vec::<char>::new());
    assert_eq!(chars_of("a\u{1F600}b"), vec!['a', '\u{1F600}', 'b']);
}

#[test]
fn a_character_is_found_wherever_it_stands() {
    assert!(contains_char("example.com", '.'));
    assert!(contains_char(".", '.'));
    assert!(contains_char("com.", '.'));
    assert!(!contains_char("localhost", '.'));
    assert!(!contains_char("", '.'));
}

#[test]
fn two_dots_count_only_side_by_side() {
    assert!(contains_double_dot(".."));
    assert!(contains_double_dot("a..b"));
    assert!(contains_double_dot("a.b.."));
    assert!(contains_double_dot("...a"));
    assert!(!contains_double_dot("a.b.c"));
    assert!(!contains_double_dot(". ."));
    assert!(!contains_double_dot("."));
    assert!(!contains_double_dot(""));
}

#[test]
fn markup_for_an_element_is_an_opener_followed_by_a_letter() {
    assert!(contains_element_markup("<p>"));
    assert!(contains_element_markup("text <B>bold"));
    assert!(contains_element_markup("<html><body></body></html>"));
    assert!(contains_element_markup("<<a"));
    assert!(contains_element_markup("<z"));
    assert!(contains_element_markup("<A"));
    assert!(!contains_element_markup(""));
    assert!(!contains_element_markup("Hi"));
    assert!(!contains_element_markup("1 < 2"));
    assert!(!contains_element_markup("</p>"));
    assert!(!contains_element_markup("<!DOCTYPE html>"));
    assert!(!contains_element_markup("<1>"));
    assert!(!contains_element_markup("< p>"));
    assert!(!contains_element_markup("<"));
    assert!(!contains_element_markup("a<"));
    assert!(!contains_element_markup("<\u{e9}>"));
    assert!(!contains_element_markup("<[>"));
    assert!(!contains_element_markup("<`>"));
    assert!(!contains_element_markup("<{>"));
    assert!(!contains_element_markup("<@>"));
}
