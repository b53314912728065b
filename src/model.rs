use vstd::prelude::*;

verus! {

/// A license under which a source or a recording is published.
#[derive(Debug, Clone, PartialEq, Eq, Default)]
pub struct License {
    pub name: String,
    pub url: String,
}

/// One pronunciation of a word.
#[derive(Debug, Clone, PartialEq, Eq, Default)]
pub struct Phonetic {
    /// Link to a recording; an empty string means there is none.
    pub audio: String,
    pub source_url: Option<String>,
    pub license: Option<License>,
    pub text: Option<String>,
}

/// One sense of a word.
#[derive(Debug, Clone, PartialEq, Eq, Default)]
pub struct Definition {
    pub definition: String,
    pub synonyms: Vec<String>,
    pub antonyms: Vec<String>,
    pub example: Option<String>,
}

/// The senses of a word under one part of speech.
#[derive(Debug, Clone, PartialEq, Eq, Default)]
pub struct Meaning {
    pub part_of_speech: String,
    pub definitions: Vec<Definition>,
    pub synonyms: Vec<String>,
    pub antonyms: Vec<String>,
}

/// One dictionary result for the word that was looked up.
#[derive(Debug, Clone, PartialEq, Eq, Default)]
pub struct WordEntry {
    pub word: String,
    pub phonetic: Option<String>,
    pub phonetics: Vec<Phonetic>,
    pub origin: Option<String>,
    pub meanings: Vec<Meaning>,
    pub license: License,
    pub source_urls: Vec<String>,
}

/// The service's own explanation of why a lookup gave no result.
#[derive(Debug, Clone, PartialEq, Eq, Default)]
pub struct ApiError {
    pub title: String,
    pub message: String,
    pub resolution: String,
}

/// What the service answered: a list of entries, or its error object.
#[derive(Debug, Clone, PartialEq, Eq)]
pub enum LookupResult {
    Success(Vec<WordEntry>),
    Failure(ApiError),
}

/// The body had neither of the two shapes that the service sends.
#[derive(Debug, Clone, PartialEq, Eq)]
pub enum ParseError {
    MalformedResponse(String),
}

} // verus!
