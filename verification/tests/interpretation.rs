//! What a reply of the engine means, tried on replies that are written out
//! by hand.

use readability_js::gate::DEFAULT_CHAR_THRESHOLD;
use readability_js::reply::engine_failure;
use readability_js::{
    interpret, Article, Direction, Fields, Gate, Lookup, Property, ReadabilityError, Reply,
};
use rquickjs::Error;

fn not_a_string(kind: &'static str) -> Error {
    Error::new_from_js(kind, "string")
}

fn text(value: &str) -> Lookup {
    Ok(Property { is_null: false, is_undefined: false, text: Ok(value.to_string()) })
}

fn null() -> Lookup {
    Ok(Property { is_null: true, is_undefined: false, text: Err(not_a_string("null")) })
}

fn undefined() -> Lookup {
    Ok(Property { is_null: false, is_undefined: true, text: Err(not_a_string("undefined")) })
}

fn number() -> Lookup {
    Ok(Property { is_null: false, is_undefined: false, text: Err(not_a_string("int")) })
}

fn unreadable() -> Lookup {
    Err(Error::Exception)
}

fn article_fields(body: &str) -> Fields {
    Fields {
        error_type: undefined(),
        error: undefined(),
        title: text("Title"),
        byline: text("A. Writer"),
        dir: text("ltr"),
        content: text("<p>content</p>"),
        text_content: text(body),
        excerpt: text("Short"),
        site_name: text("Site"),
        lang: text("en"),
        published_time: text("yesterday"),
    }
}

fn context_of(result: Result<Article, ReadabilityError>) -> (String, Error) {
    match result {
        Err(ReadabilityError::JsEvaluation { context, source }) => (context, source),
        other => panic!("expected an engine error, got {:?}", other),
    }
}

#[test]
fn fields_in_order_make_the_article() {
    let article = Article::try_from(article_fields("The body.")).unwrap();
    assert_eq!(
        article,
        Article {
            title: "Title".to_string(),
            content: "<p>content</p>".to_string(),
            text_content: "The body.".to_string(),
            length: 9,
            byline: Some("A. Writer".to_string()),
            direction: Some(Direction::Ltr),
            excerpt: Some("Short".to_string()),
            site_name: Some("Site".to_string()),
            language: Some("en".to_string()),
            published_time: Some("yesterday".to_string()),
        }
    );
}

#[test]
fn the_length_of_an_assembled_article_is_its_character_count() {
    for body in ["", "a", "na\u{ef}ve", "\u{1F600}\u{1F600}", "line\nbreak\ttab"] {
        let article = Article::try_from(article_fields(body)).unwrap();
        assert_eq!(article.text_content, body);
        assert_eq!(article.length as usize, body.chars().count());
    }
    assert_eq!(Article::try_from(article_fields("\u{1F600}\u{1F600}")).unwrap().length, 2);
}

#[test]
fn text_without_delimiters_stays_without_delimiters() {
    let article = interpret(Reply::Object(article_fields("plain words only")), 1).unwrap();
    assert!(!article.text_content.contains('<'));
    assert!(!article.text_content.contains('>'));
    assert_eq!(article.length, 16);
}

#[test]
fn null_and_undefined_metadata_is_none() {
    let mut fields = article_fields("body");
    fields.byline = null();
    fields.dir = undefined();
    fields.excerpt = null();
    fields.site_name = undefined();
    fields.lang = null();
    fields.published_time = undefined();
    let article = Article::try_from(fields).unwrap();
    assert_eq!(article.byline, None);
    assert_eq!(article.direction, None);
    assert_eq!(article.excerpt, None);
    assert_eq!(article.site_name, None);
    assert_eq!(article.language, None);
    assert_eq!(article.published_time, None);
}

#[test]
fn a_direction_that_is_neither_ltr_nor_rtl_is_none() {
    for (dir, expected) in [
        ("ltr", Some(Direction::Ltr)),
        ("rtl", Some(Direction::Rtl)),
        ("auto", None),
        ("Rtl", None),
        ("ltr ", None),
        ("", None),
    ] {
        let mut fields = article_fields("body");
        fields.dir = text(dir);
        assert_eq!(Article::try_from(fields).unwrap().direction, expected);
        assert_eq!(readability_js::article::parse_direction(dir), expected);
    }
}

#[test]
fn a_required_text_that_is_null_fails_with_the_conversion_error() {
    let mut fields = article_fields("body");
    fields.title = null();
    let (context, source) = context_of(Article::try_from(fields));
    assert_eq!(context, "failed to get title");
    assert!(matches!(source, Error::FromJs { from: "null", to: "string", .. }));
}

#[test]
fn a_failed_lookup_fails_with_the_lookup_error() {
    let mut fields = article_fields("body");
    fields.excerpt = unreadable();
    let (context, source) = context_of(Article::try_from(fields));
    assert_eq!(context, "failed to get excerpt");
    assert!(matches!(source, Error::Exception));
}

#[test]
fn each_field_fails_under_its_own_words() {
    let broken: [(fn(&mut Fields, Lookup), &str, &str); 9] = [
        (|f, v| f.title = v, "failed to get title", "failed to get title"),
        (|f, v| f.byline = v, "failed to get byline as string", "failed to get byline"),
        (|f, v| f.dir = v, "failed to get dir as string", "failed to get dir"),
        (|f, v| f.content = v, "failed to get content", "failed to get content"),
        (|f, v| f.text_content = v, "failed to get text_content", "failed to get text_content"),
        (|f, v| f.excerpt = v, "failed to get excerpt as string", "failed to get excerpt"),
        (|f, v| f.site_name = v, "failed to get site_name as string", "failed to get site_name"),
        (|f, v| f.lang = v, "failed to get lang as string", "failed to get lang"),
        (
            |f, v| f.published_time = v,
            "failed to get published_time as string",
            "failed to get published_time",
        ),
    ];
    for (set, wrong_kind, no_lookup) in broken {
        let mut fields = article_fields("body");
        set(&mut fields, number());
        assert_eq!(context_of(Article::try_from(fields)).0, wrong_kind);
        let mut fields = article_fields("body");
        set(&mut fields, unreadable());
        assert_eq!(context_of(Article::try_from(fields)).0, no_lookup);
    }
}

#[test]
fn the_earliest_broken_field_wins() {
    let mut fields = article_fields("body");
    fields.published_time = number();
    fields.content = number();
    fields.byline = unreadable();
    assert_eq!(context_of(Article::try_from(fields)).0, "failed to get byline");
    let mut fields = article_fields("body");
    fields.lang = number();
    fields.text_content = null();
    assert_eq!(context_of(Article::try_from(fields)).0, "failed to get text_content");
}

#[test]
fn a_reply_that_is_no_object_is_an_extraction_error() {
    match interpret(Reply::NotObject, 0) {
        Err(ReadabilityError::ExtractionError(detail)) => {
            assert_eq!(detail, "Expected JavaScript object, got a different type")
        }
        other => panic!("unexpected {:?}", other),
    }
}

#[test]
fn a_reported_failure_goes_before_the_article() {
    let mut fields = article_fields("a body that is long enough");
    fields.error_type = text("ExtractionError");
    fields.error = text("nothing found");
    match interpret(Reply::Object(fields), 1) {
        Err(ReadabilityError::ExtractionError(detail)) => assert_eq!(detail, "nothing found"),
        other => panic!("unexpected {:?}", other),
    }
}

#[test]
fn a_reported_failure_of_the_check_is_the_failed_check() {
    for error in [text("too short"), undefined(), number(), unreadable()] {
        let mut fields = article_fields(&"x".repeat(500));
        fields.error_type = text("ReadabilityCheckFailed");
        fields.error = error;
        for threshold in [0usize, 1, 140, 1000] {
            let mut again = article_fields(&"x".repeat(500));
            again.error_type = text("ReadabilityCheckFailed");
            assert!(matches!(
                interpret(Reply::Object(again), threshold),
                Err(ReadabilityError::ReadabilityCheckFailed)
            ));
        }
        assert!(matches!(
            interpret(Reply::Object(fields), 0),
            Err(ReadabilityError::ReadabilityCheckFailed)
        ));
    }
}

#[test]
fn a_reported_failure_takes_its_message_only_from_a_string() {
    for error in [undefined(), null(), number(), unreadable()] {
        let mut fields = article_fields("body");
        fields.error_type = text("HtmlParseError");
        fields.error = error;
        match interpret(Reply::Object(fields), 1) {
            Err(ReadabilityError::HtmlParseError(detail)) => assert_eq!(detail, "Unknown error"),
            other => panic!("unexpected {:?}", other),
        }
    }
}

#[test]
fn an_error_type_that_cannot_be_read_reports_nothing() {
    for error_type in [undefined(), null(), number(), unreadable()] {
        let mut fields = article_fields("body");
        fields.error_type = error_type;
        fields.error = text("ignored");
        assert_eq!(interpret(Reply::Object(fields), 1).unwrap().title, "Title");
    }
}

#[test]
fn each_tag_has_its_error() {
    assert!(matches!(
        engine_failure("HtmlParseError", "m"),
        ReadabilityError::HtmlParseError(detail) if detail == "m"
    ));
    assert!(matches!(
        engine_failure("ExtractionError", "m"),
        ReadabilityError::ExtractionError(detail) if detail == "m"
    ));
    assert!(matches!(
        engine_failure("RuntimeError", "m"),
        ReadabilityError::JsEvaluation { context, source: Error::Unknown }
            if context == "JavaScript runtime error: m"
    ));
    assert!(matches!(
        engine_failure("ReadabilityCheckFailed", "m"),
        ReadabilityError::ReadabilityCheckFailed
    ));
    for tag in ["", "runtimeerror", "readabilitycheckfailed", "InvalidOptions", "it's"] {
        assert!(matches!(
            engine_failure(tag, "m"),
            ReadabilityError::ExtractionError(detail)
                if detail == format!("Unknown error type '{}': m", tag)
        ));
    }
}

#[test]
fn the_check_rejects_text_below_the_threshold() {
    let reply = || Reply::Object(article_fields("Hi"));
    assert!(matches!(
        interpret(reply(), DEFAULT_CHAR_THRESHOLD),
        Err(ReadabilityError::ReadabilityCheckFailed)
    ));
    assert!(matches!(interpret(reply(), 3), Err(ReadabilityError::ReadabilityCheckFailed)));
    assert_eq!(interpret(reply(), 2).unwrap().length, 2);
    assert_eq!(interpret(reply(), 1).unwrap().length, 2);
    assert_eq!(interpret(reply(), 0).unwrap().length, 2);
}

#[test]
fn the_default_threshold_is_140_characters() {
    assert_eq!(DEFAULT_CHAR_THRESHOLD, 140);
    let body = |n: usize| Reply::Object(article_fields(&"x".repeat(n)));
    assert!(interpret(body(139), DEFAULT_CHAR_THRESHOLD).is_err());
    assert!(interpret(body(140), DEFAULT_CHAR_THRESHOLD).is_ok());
}

#[test]
fn the_check_comes_after_the_fields() {
    let mut fields = article_fields("Hi");
    fields.published_time = number();
    assert_eq!(
        context_of(interpret(Reply::Object(fields), 140)).0,
        "failed to get published_time as string"
    );
}

#[test]
fn acceptance_is_monotonic_in_the_threshold() {
    for length in [0usize, 1, 139, 140, 141, 5000] {
        let mut accepted_before = true;
        for threshold in 0..300usize {
            let accepted = Gate::Pending.settle(length, threshold) == Gate::Accepted;
            assert_eq!(accepted, length >= threshold);
            assert!(accepted_before || !accepted);
            accepted_before = accepted;
        }
    }
}

#[test]
fn a_settled_gate_stays_as_it_is() {
    assert_eq!(Gate::Pending.settle(10, 10), Gate::Accepted);
    assert_eq!(Gate::Pending.settle(9, 10), Gate::Rejected);
    assert_eq!(Gate::Accepted.settle(0, 10), Gate::Accepted);
    assert_eq!(Gate::Rejected.settle(20, 10), Gate::Rejected);
}

#[test]
fn one_reply_means_one_thing() {
    let first = interpret(Reply::Object(article_fields("the same body")), 5).unwrap();
    let second = interpret(Reply::Object(article_fields("the same body")), 5).unwrap();
    assert_eq!(first, second);
}

#[test]
fn every_error_has_its_message() {
    assert_eq!(
        ReadabilityError::HtmlParseError("no root".to_string()).message(),
        "Failed to parse HTML: no root"
    );
    assert_eq!(
        ReadabilityError::ReadabilityCheckFailed.message(),
        "Content failed readability check"
    );
    assert_eq!(
        ReadabilityError::ExtractionError("lost".to_string()).message(),
        "Failed to extract readable content: lost"
    );
    assert_eq!(
        ReadabilityError::JsEvaluation { context: "loading".to_string(), source: Error::Unknown }
            .message(),
        "Failed to evaluate JavaScript: loading"
    );
    assert_eq!(
        ReadabilityError::InvalidOptions("bad url".to_string()).message(),
        "Invalid options: bad url"
    );
}

#[test]
fn an_engine_result_keeps_its_value_or_gets_its_context() {
    let kept: Result<u8, ReadabilityError> = readability_js::error::js_context(Ok(7), "counting");
    assert!(matches!(kept, Ok(7)));
    let wrapped: Result<u8, ReadabilityError> =
        readability_js::error::js_context(Err(Error::Allocation), "counting");
    assert!(matches!(
        wrapped,
        Err(ReadabilityError::JsEvaluation { context, source: Error::Allocation })
            if context == "counting"
    ));
}
