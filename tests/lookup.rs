use define::client::{request_url, word_argument, UsageError, BASE_URL};
use define::json::Json;
use define::model::{ApiError, LookupResult, ParseError};
use define::schema::parse_tree;

fn text(s: &str) -> Json {
    Json::Str(s.to_string())
}

fn texts(items: &[&str]) -> Json {
    Json::Array(items.iter().map(|s| text(s)).collect())
}

fn object(members: Vec<(&str, Json)>) -> Json {
    Json::Object(members.into_iter().map(|(k, v)| (k.to_string(), v)).collect())
}

fn full_entry() -> Json {
    object(vec![
        ("word", text("hello")),
        ("phonetic", text("həˈləʊ")),
        (
            "phonetics",
            Json::Array(vec![
                object(vec![
                    ("text", text("həˈləʊ")),
                    ("audio", text("https://example.org/hello-uk.mp3")),
                    ("sourceUrl", text("https://example.org/audio")),
                    (
                        "license",
                        object(vec![("name", text("BY-SA 4.0")), ("url", text("https://example.org/by-sa"))]),
                    ),
                ]),
                object(vec![("text", text("hɛˈləʊ")), ("audio", text(""))]),
            ]),
        ),
        ("origin", text("early 19th century")),
        (
            "meanings",
            Json::Array(vec![
                object(vec![
                    ("partOfSpeech", text("exclamation")),
                    (
                        "definitions",
                        Json::Array(vec![
                            object(vec![
                                ("definition", text("used as a greeting")),
                                ("example", text("hello there, Katie!")),
                                ("synonyms", texts(&[])),
                                ("antonyms", texts(&[])),
                            ]),
                            object(vec![
                                ("definition", text("used to attract attention")),
                                ("synonyms", texts(&["hey", "hi"])),
                                ("antonyms", texts(&["goodbye"])),
                            ]),
                        ]),
                    ),
                    ("synonyms", texts(&["greeting"])),
                    ("antonyms", texts(&[])),
                ]),
                object(vec![
                    ("partOfSpeech", text("noun")),
                    ("definitions", Json::Array(vec![object(vec![("definition", text("an utterance of hello"))])])),
                ]),
            ]),
        ),
        ("license", object(vec![("name", text("CC BY-SA 3.0")), ("url", text("https://example.org/cc"))])),
        ("sourceUrls", texts(&["https://example.org/wiki/hello", "https://example.org/wiki/hallo"])),
        ("unknownMember", Json::Number("42".to_string())),
    ])
}

#[test]
fn request_target_appends_word_after_slash() {
    assert_eq!(request_url("hello"), "https://api.dictionaryapi.dev/api/v2/entries/en/hello");
    assert_eq!(request_url("ice cream"), format!("{}/ice cream", BASE_URL));
    assert_eq!(request_url(""), format!("{}/", BASE_URL));
}

#[test]
fn exactly_one_argument_is_accepted() {
    let args = vec!["define".to_string(), "hello".to_string()];
    assert_eq!(word_argument(&args), Ok("hello".to_string()));
}

#[test]
fn zero_or_several_arguments_are_refused() {
    assert_eq!(word_argument(&vec!["define".to_string()]), Err(UsageError::WrongArgumentCount));
    let two = vec!["define".to_string(), "a".to_string(), "b".to_string()];
    assert_eq!(word_argument(&two), Err(UsageError::WrongArgumentCount));
    assert_eq!(word_argument(&vec![]), Err(UsageError::WrongArgumentCount));
}

#[test]
fn one_entry_parses_member_by_member() {
    let body = Json::Array(vec![full_entry()]);
    let entries = match parse_tree(&body) {
        Ok(LookupResult::Success(es)) => es,
        other => panic!("unexpected {:?}", other),
    };
    assert_eq!(entries.len(), 1);
    let e = &entries[0];
    assert_eq!(e.word, "hello");
    assert_eq!(e.phonetic.as_deref(), Some("həˈləʊ"));
    assert_eq!(e.origin.as_deref(), Some("early 19th century"));
    assert_eq!(e.phonetics.len(), 2);
    assert_eq!(e.phonetics[0].audio, "https://example.org/hello-uk.mp3");
    assert_eq!(e.phonetics[0].source_url.as_deref(), Some("https://example.org/audio"));
    assert_eq!(e.phonetics[0].license.as_ref().map(|l| l.name.as_str()), Some("BY-SA 4.0"));
    assert_eq!(e.phonetics[1].text.as_deref(), Some("hɛˈləʊ"));
    assert_eq!(e.phonetics[1].audio, "");
    assert_eq!(e.phonetics[1].license, None);
    assert_eq!(e.meanings.len(), 2);
    assert_eq!(e.meanings[0].part_of_speech, "exclamation");
    assert_eq!(e.meanings[0].synonyms, vec!["greeting".to_string()]);
    let defs = &e.meanings[0].definitions;
    assert_eq!(defs[0].definition, "used as a greeting");
    assert_eq!(defs[1].definition, "used to attract attention");
    assert_eq!(defs[0].example.as_deref(), Some("hello there, Katie!"));
    assert_eq!(defs[1].synonyms, vec!["hey".to_string(), "hi".to_string()]);
    assert_eq!(defs[1].antonyms, vec!["goodbye".to_string()]);
    assert_eq!(e.meanings[1].part_of_speech, "noun");
    assert!(e.meanings[1].synonyms.is_empty());
    assert_eq!(e.license.name, "CC BY-SA 3.0");
    assert_eq!(e.license.url, "https://example.org/cc");
    assert_eq!(
        e.source_urls,
        vec!["https://example.org/wiki/hello".to_string(), "https://example.org/wiki/hallo".to_string()]
    );
}

#[test]
fn error_object_parses_to_failure() {
    let body = object(vec![
        ("title", text("No Definitions Found")),
        ("message", text("Sorry pal, we couldn't find definitions for the word you were looking for.")),
        ("resolution", text("You can try the search again at later time or head to the web instead.")),
    ]);
    assert_eq!(
        parse_tree(&body),
        Ok(LookupResult::Failure(ApiError {
            title: "No Definitions Found".to_string(),
            message: "Sorry pal, we couldn't find definitions for the word you were looking for.".to_string(),
            resolution: "You can try the search again at later time or head to the web instead.".to_string(),
        }))
    );
}

#[test]
fn missing_phonetics_is_an_empty_list() {
    let body = Json::Array(vec![object(vec![("word", text("cat"))])]);
    match parse_tree(&body) {
        Ok(LookupResult::Success(es)) => {
            assert_eq!(es.len(), 1);
            assert_eq!(es[0].word, "cat");
            assert!(es[0].phonetics.is_empty());
            assert!(es[0].meanings.is_empty());
            assert!(es[0].source_urls.is_empty());
            assert_eq!(es[0].phonetic, None);
            assert_eq!(es[0].license.name, "");
        }
        other => panic!("unexpected {:?}", other),
    }
}

#[test]
fn null_optional_members_are_absent() {
    let body = Json::Array(vec![object(vec![("word", text("cat")), ("origin", Json::Null), ("phonetic", Json::Null)])]);
    match parse_tree(&body) {
        Ok(LookupResult::Success(es)) => {
            assert_eq!(es[0].origin, None);
            assert_eq!(es[0].phonetic, None);
        }
        other => panic!("unexpected {:?}", other),
    }
}

#[test]
fn empty_array_is_an_empty_success() {
    assert_eq!(parse_tree(&Json::Array(vec![])), Ok(LookupResult::Success(vec![])));
}

#[test]
fn last_duplicate_member_counts() {
    let body = Json::Array(vec![object(vec![("word", text("first")), ("word", text("second"))])]);
    match parse_tree(&body) {
        Ok(LookupResult::Success(es)) => assert_eq!(es[0].word, "second"),
        other => panic!("unexpected {:?}", other),
    }
}

#[test]
fn malformed_bodies_are_parse_errors() {
    let bad = vec![
        Json::Number("42".to_string()),
        text("hello"),
        Json::Null,
        Json::Bool(true),
        object(vec![("title", Json::Number("1".to_string()))]),
        Json::Array(vec![object(vec![("word", Json::Number("3".to_string()))])]),
        Json::Array(vec![text("not an entry")]),
        Json::Array(vec![object(vec![("sourceUrls", texts(&["a"])), ("meanings", text("x"))])]),
    ];
    for body in bad.iter() {
        assert!(matches!(parse_tree(body), Err(ParseError::MalformedResponse(_))), "{:?}", body);
    }
}

#[test]
fn array_is_tried_before_error_object() {
    let entry_like = Json::Array(vec![object(vec![("title", text("t")), ("message", text("m"))])]);
    assert!(matches!(parse_tree(&entry_like), Ok(LookupResult::Success(_))));
    let error_like = object(vec![("word", text("w"))]);
    assert!(matches!(parse_tree(&error_like), Ok(LookupResult::Failure(_))));
}
