use define::model::{ApiError, Definition, License, LookupResult, Meaning, Phonetic, WordEntry};
use define::render::{render, render_definition, render_entry, render_list, render_outcome, render_phonetic, render_word};

fn entry(word: &str, phonetic: Option<&str>) -> WordEntry {
    WordEntry {
        word: word.to_string(),
        phonetic: phonetic.map(|p| p.to_string()),
        phonetics: vec![],
        origin: None,
        meanings: vec![],
        license: License::default(),
        source_urls: vec![],
    }
}

const WORD_HEADER: &str = "* \x1b[38;5;9m\x1b[1mword\x1b[0m\x1b[39m\n";

#[test]
fn word_without_phonetic_has_no_parenthesis() {
    assert_eq!(render_word(&entry("test", None)), "\ttest\n\n");
}

#[test]
fn word_with_phonetic_is_followed_by_it_in_parentheses() {
    assert_eq!(render_word(&entry("word", Some("/test/"))), "\tword (/test/)\n\n");
}

#[test]
fn definition_without_lists_has_no_list_lines() {
    let d = Definition {
        definition: "a small animal".to_string(),
        synonyms: vec![],
        antonyms: vec![],
        example: None,
    };
    assert_eq!(render_definition(&d), "\t\x1b[1mdefinition\x1b[0m: a small animal\n\n");
}

#[test]
fn definition_shows_every_present_part_in_order() {
    let d = Definition {
        definition: "greeting".to_string(),
        synonyms: vec!["hi".to_string(), "hey".to_string()],
        antonyms: vec!["bye".to_string()],
        example: Some("hello!".to_string()),
    };
    assert_eq!(
        render_definition(&d),
        "\t\x1b[1mdefinition\x1b[0m: greeting\n\
         \t\x1b[1mexample\x1b[0m: hello!\n\
         \t\x1b[1msynonyms\x1b[0m: [\"hi\", \"hey\"]\n\
         \t\x1b[1mantonyms\x1b[0m: [\"bye\"]\n\n"
    );
}

#[test]
fn list_is_written_like_debug() {
    let items = vec!["a".to_string(), "say \"hi\"".to_string(), "c".to_string()];
    assert_eq!(render_list(&items), format!("{:?}", items));
    assert_eq!(render_list(&items), "[\"a\", \"say \\\"hi\\\"\", \"c\"]");
    assert_eq!(render_list(&vec![]), "[]");
}

#[test]
fn phonetic_skips_empty_audio() {
    let p = Phonetic {
        audio: String::new(),
        source_url: Some("https://example.org/src".to_string()),
        license: None,
        text: Some("/kæt/".to_string()),
    };
    assert_eq!(
        render_phonetic(&p),
        "\t\x1b[1mtext\x1b[0m: /kæt/\n\t\x1b[1msource\x1b[0m: https://example.org/src\n\n"
    );
    let q = Phonetic { audio: "a.mp3".to_string(), source_url: None, license: None, text: None };
    assert_eq!(render_phonetic(&q), "\t\x1b[1maudio\x1b[0m: a.mp3\n\n");
}

#[test]
fn bare_entry_shows_only_the_word() {
    assert_eq!(render_entry(&entry("cat", None)), format!("{}\tcat\n\n", WORD_HEADER));
}

#[test]
fn full_entry_sections_come_in_order() {
    let e = WordEntry {
        word: "cat".to_string(),
        phonetic: Some("/kæt/".to_string()),
        phonetics: vec![Phonetic { audio: "c.mp3".to_string(), source_url: None, license: None, text: None }],
        origin: Some("Old English".to_string()),
        meanings: vec![Meaning {
            part_of_speech: "noun".to_string(),
            definitions: vec![Definition {
                definition: "a feline".to_string(),
                synonyms: vec![],
                antonyms: vec![],
                example: None,
            }],
            synonyms: vec!["kitty".to_string()],
            antonyms: vec![],
        }],
        license: License::default(),
        source_urls: vec!["https://example.org/cat".to_string()],
    };
    let expected = format!(
        "{}\tcat (/kæt/)\n\nOrigin: Old English\n\
         * \x1b[38;5;14m\x1b[1mphonetics\x1b[0m\x1b[39m\n\t\x1b[1maudio\x1b[0m: c.mp3\n\n\
         * \x1b[38;5;11m\x1b[1mnoun\x1b[0m\x1b[39m\n\t\x1b[1msynonyms\x1b[0m: [\"kitty\"]\n\
         \t\x1b[1mdefinition\x1b[0m: a feline\n\n\
         * \x1b[38;5;13m\x1b[1murls\x1b[0m\x1b[39m\n\t[\"https://example.org/cat\"]\n\n",
        WORD_HEADER
    );
    assert_eq!(render_entry(&e), expected);
}

#[test]
fn report_keeps_entry_order() {
    let es = vec![entry("one", None), entry("two", None)];
    assert_eq!(render(&es), format!("{}\tone\n\n{}\ttwo\n\n", WORD_HEADER, WORD_HEADER));
    assert_eq!(render(&vec![]), "");
}

#[test]
fn failure_shows_the_message() {
    let r = LookupResult::Failure(ApiError {
        title: "No Definitions Found".to_string(),
        message: "Sorry pal".to_string(),
        resolution: "Try again".to_string(),
    });
    assert_eq!(render_outcome(&r), "Error: Sorry pal\n");
    let ok = LookupResult::Success(vec![entry("cat", None)]);
    assert_eq!(render_outcome(&ok), format!("{}\tcat\n\n", WORD_HEADER));
}
