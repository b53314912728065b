use crate::json::{field, get_field, Json};
use crate::model::{ApiError, Definition, License, LookupResult, Meaning, ParseError, Phonetic, WordEntry};
use vstd::prelude::*;
use vstd::string::*;

verus! {

// A member that the model does not mark optional may be missing, and then
// stands for its empty form; when present it must have the expected type.
// An optional member may be missing or null.

/// A string member: missing, or a string.
pub open spec fn text_ok(v: Option<Json>) -> bool {
    match v {
        None => true,
        Some(Json::Str(_)) => true,
        _ => false,
    }
}

/// The value of a string member; the empty string where it is missing.
pub open spec fn text_value(v: Option<Json>) -> Seq<char> {
    match v {
        Some(Json::Str(s)) => s@,
        _ => seq![],
    }
}

/// An optional string member: missing, null, or a string.
pub open spec fn optional_text_ok(v: Option<Json>) -> bool {
    match v {
        None => true,
        Some(Json::Null) => true,
        Some(Json::Str(_)) => true,
        _ => false,
    }
}

/// `r` holds the optional string member `v`.
pub open spec fn optional_text_matches(v: Option<Json>, r: Option<String>) -> bool {
    match v {
        Some(Json::Str(s)) => r matches Some(t) && t@ == s@,
        _ => r is None,
    }
}

/// A JSON string.
pub open spec fn is_text(j: Json) -> bool {
    j is Str
}

/// `s` is the JSON string `j`.
pub open spec fn text_matches(j: Json, s: String) -> bool {
    j matches Json::Str(t) && s@ == t@
}

/// A list of strings member: missing, or an array of strings.
pub open spec fn texts_ok(v: Option<Json>) -> bool {
    v is None || (v->0 is Array && forall|i: int|
        0 <= i < v->0->Array_0@.len() ==> is_text(#[trigger] v->0->Array_0@[i]))
}

/// `r` holds the list of strings `v` item by item, in order; a missing
/// member is the empty list.
pub open spec fn texts_match(v: Option<Json>, r: Seq<String>) -> bool {
    match v {
        Some(Json::Array(items)) => r.len() == items@.len() && forall|i: int|
            0 <= i < r.len() ==> text_matches(items@[i], #[trigger] r[i]),
        _ => r.len() == 0,
    }
}

/// Reads a string member of an object; `None` where it has another type.
fn text_member(fields: &Vec<(String, Json)>, key: &str) -> (r: Option<String>)
    ensures
        r is Some <==> text_ok(field(fields@, key@)),
        r matches Some(s) ==> s@ == text_value(field(fields@, key@)),
{
    match get_field(fields, key) {
        None => Some(String::new()),
        Some(Json::Str(s)) => Some(s.clone()),
        Some(_) => None,
    }
}

/// Reads an optional string member of an object; `None` where it has
/// another type.
fn optional_text_member(fields: &Vec<(String, Json)>, key: &str) -> (r: Option<Option<String>>)
    ensures
        r is Some <==> optional_text_ok(field(fields@, key@)),
        r matches Some(t) ==> optional_text_matches(field(fields@, key@), t),
{
    match get_field(fields, key) {
        None => Some(None),
        Some(Json::Null) => Some(None),
        Some(Json::Str(s)) => Some(Some(s.clone())),
        Some(_) => None,
    }
}

/// Reads a list of strings member of an object; `None` where it is not an
/// array of strings.
fn texts_member(fields: &Vec<(String, Json)>, key: &str) -> (r: Option<Vec<String>>)
    ensures
        r is Some <==> texts_ok(field(fields@, key@)),
        r matches Some(t) ==> texts_match(field(fields@, key@), t@),
{
    match get_field(fields, key) {
        None => Some(Vec::new()),
        Some(Json::Array(items)) => {
            let mut out: Vec<String> = Vec::new();
            let mut i: usize = 0;
            while i < items.len()
                invariant
                    i <= items@.len(),
                    out@.len() == i,
                    field(fields@, key@) == Some(Json::Array(*items)),
                    forall|k: int| 0 <= k < i ==> is_text(items@[k]),
                    forall|k: int| 0 <= k < i ==> text_matches(items@[k], #[trigger] out@[k]),
                decreases items@.len() - i,
            {
                match &items[i] {
                    Json::Str(s) => out.push(s.clone()),
                    _ => {
                        assert(!is_text(field(fields@, key@)->0->Array_0@[i as int]));
                        return None;
                    },
                }
                i = i + 1;
            }
            Some(out)
        },
        Some(_) => None,
    }
}


/// The members of a JSON object (none for any other value).
pub open spec fn members(j: Json) -> Seq<(String, Json)> {
    match j {
        Json::Object(fields) => fields@,
        _ => seq![],
    }
}

/// A license object with string `name` and `url`.
pub open spec fn license_ok(j: Json) -> bool {
    &&& j is Object
    &&& text_ok(field(members(j), "name"@))
    &&& text_ok(field(members(j), "url"@))
}

/// `l` holds the license object `j`.
pub open spec fn license_matches(j: Json, l: License) -> bool {
    &&& j is Object
    &&& l.name@ == text_value(field(members(j), "name"@))
    &&& l.url@ == text_value(field(members(j), "url"@))
}

/// Reads a license object.
pub fn license_from(j: &Json) -> (r: Option<License>)
    ensures
        r is Some <==> license_ok(*j),
        r matches Some(l) ==> license_matches(*j, l),
{
    let fields = match j {
        Json::Object(fields) => fields,
        _ => return None,
    };
    let name = match text_member(fields, "name") {
        Some(x) => x,
        None => return None,
    };
    let url = match text_member(fields, "url") {
        Some(x) => x,
        None => return None,
    };
    Some(License { name, url })
}

/// A license member that the model requires: missing, or a license object.
pub open spec fn license_member_ok(v: Option<Json>) -> bool {
    match v {
        None => true,
        Some(j) => license_ok(j),
    }
}

/// `l` holds the license member `v`; a missing one is the empty license.
pub open spec fn license_member_matches(v: Option<Json>, l: License) -> bool {
    match v {
        None => l.name@.len() == 0 && l.url@.len() == 0,
        Some(j) => license_matches(j, l),
    }
}

/// An optional license member: missing, null, or a license object.
pub open spec fn optional_license_ok(v: Option<Json>) -> bool {
    match v {
        None => true,
        Some(Json::Null) => true,
        Some(j) => license_ok(j),
    }
}

/// `r` holds the optional license member `v`.
pub open spec fn optional_license_matches(v: Option<Json>, r: Option<License>) -> bool {
    match v {
        None => r is None,
        Some(Json::Null) => r is None,
        Some(j) => r matches Some(l) && license_matches(j, l),
    }
}

fn license_member(fields: &Vec<(String, Json)>, key: &str) -> (r: Option<License>)
    ensures
        r is Some <==> license_member_ok(field(fields@, key@)),
        r matches Some(l) ==> license_member_matches(field(fields@, key@), l),
{
    match get_field(fields, key) {
        None => Some(License { name: String::new(), url: String::new() }),
        Some(j) => license_from(j),
    }
}

fn optional_license_member(fields: &Vec<(String, Json)>, key: &str) -> (r: Option<Option<License>>)
    ensures
        r is Some <==> optional_license_ok(field(fields@, key@)),
        r matches Some(t) ==> optional_license_matches(field(fields@, key@), t),
{
    match get_field(fields, key) {
        None => Some(None),
        Some(Json::Null) => Some(None),
        Some(j) => match license_from(j) {
            Some(l) => Some(Some(l)),
            None => None,
        },
    }
}

/// A pronunciation object.
pub open spec fn phonetic_ok(j: Json) -> bool {
    &&& j is Object
    &&& text_ok(field(members(j), "audio"@))
    &&& optional_text_ok(field(members(j), "sourceUrl"@))
    &&& optional_license_ok(field(members(j), "license"@))
    &&& optional_text_ok(field(members(j), "text"@))
}

/// `p` holds the pronunciation object `j`.
pub open spec fn phonetic_matches(j: Json, p: Phonetic) -> bool {
    &&& j is Object
    &&& p.audio@ == text_value(field(members(j), "audio"@))
    &&& optional_text_matches(field(members(j), "sourceUrl"@), p.source_url)
    &&& optional_license_matches(field(members(j), "license"@), p.license)
    &&& optional_text_matches(field(members(j), "text"@), p.text)
}

/// Reads a pronunciation object.
pub fn phonetic_from(j: &Json) -> (r: Option<Phonetic>)
    ensures
        r is Some <==> phonetic_ok(*j),
        r matches Some(p) ==> phonetic_matches(*j, p),
{
    let fields = match j {
        Json::Object(fields) => fields,
        _ => return None,
    };
    let audio = match text_member(fields, "audio") {
        Some(x) => x,
        None => return None,
    };
    let source_url = match optional_text_member(fields, "sourceUrl") {
        Some(x) => x,
        None => return None,
    };
    let license = match optional_license_member(fields, "license") {
        Some(x) => x,
        None => return None,
    };
    let text = match optional_text_member(fields, "text") {
        Some(x) => x,
        None => return None,
    };
    Some(Phonetic { audio, source_url, license, text })
}

/// A pronunciations member: missing, or an array of well-formed items.
pub open spec fn phonetics_ok(v: Option<Json>) -> bool {
    v is None || (v->0 is Array && forall|i: int|
        0 <= i < v->0->Array_0@.len() ==> phonetic_ok(#[trigger] v->0->Array_0@[i]))
}

/// `r` holds the pronunciations member `v` item by item, in order; a missing member
/// is the empty list.
pub open spec fn phonetics_match(v: Option<Json>, r: Seq<Phonetic>) -> bool {
    match v {
        Some(Json::Array(items)) => r.len() == items@.len() && forall|i: int|
            0 <= i < r.len() ==> phonetic_matches(items@[i], #[trigger] r[i]),
        _ => r.len() == 0,
    }
}

fn phonetics_member(fields: &Vec<(String, Json)>, key: &str) -> (r: Option<Vec<Phonetic>>)
    ensures
        r is Some <==> phonetics_ok(field(fields@, key@)),
        r matches Some(t) ==> phonetics_match(field(fields@, key@), t@),
{
    match get_field(fields, key) {
        None => Some(Vec::new()),
        Some(Json::Array(items)) => {
            let mut out: Vec<Phonetic> = Vec::new();
            let mut i: usize = 0;
            while i < items.len()
                invariant
                    i <= items@.len(),
                    out@.len() == i,
                    field(fields@, key@) == Some(Json::Array(*items)),
                    forall|k: int| 0 <= k < i ==> phonetic_ok(items@[k]),
                    forall|k: int| 0 <= k < i ==> phonetic_matches(items@[k], #[trigger] out@[k]),
                decreases items@.len() - i,
            {
                match phonetic_from(&items[i]) {
                    Some(x) => out.push(x),
                    None => {
                        assert(!phonetic_ok(field(fields@, key@)->0->Array_0@[i as int]));
                        return None;
                    },
                }
                i = i + 1;
            }
            Some(out)
        },
        Some(_) => None,
    }
}

/// A sense object.
pub open spec fn definition_ok(j: Json) -> bool {
    &&& j is Object
    &&& text_ok(field(members(j), "definition"@))
    &&& texts_ok(field(members(j), "synonyms"@))
    &&& texts_ok(field(members(j), "antonyms"@))
    &&& optional_text_ok(field(members(j), "example"@))
}

/// `d` holds the sense object `j`.
pub open spec fn definition_matches(j: Json, d: Definition) -> bool {
    &&& j is Object
    &&& d.definition@ == text_value(field(members(j), "definition"@))
    &&& texts_match(field(members(j), "synonyms"@), d.synonyms@)
    &&& texts_match(field(members(j), "antonyms"@), d.antonyms@)
    &&& optional_text_matches(field(members(j), "example"@), d.example)
}

/// Reads a sense object.
pub fn definition_from(j: &Json) -> (r: Option<Definition>)
    ensures
        r is Some <==> definition_ok(*j),
        r matches Some(d) ==> definition_matches(*j, d),
{
    let fields = match j {
        Json::Object(fields) => fields,
        _ => return None,
    };
    let definition = match text_member(fields, "definition") {
        Some(x) => x,
        None => return None,
    };
    let synonyms = match texts_member(fields, "synonyms") {
        Some(x) => x,
        None => return None,
    };
    let antonyms = match texts_member(fields, "antonyms") {
        Some(x) => x,
        None => return None,
    };
    let example = match optional_text_member(fields, "example") {
        Some(x) => x,
        None => return None,
    };
    Some(Definition { definition, synonyms, antonyms, example })
}

/// A senses member: missing, or an array of well-formed items.
pub open spec fn definitions_ok(v: Option<Json>) -> bool {
    v is None || (v->0 is Array && forall|i: int|
        0 <= i < v->0->Array_0@.len() ==> definition_ok(#[trigger] v->0->Array_0@[i]))
}

/// `r` holds the senses member `v` item by item, in order; a missing member
/// is the empty list.
pub open spec fn definitions_match(v: Option<Json>, r: Seq<Definition>) -> bool {
    match v {
        Some(Json::Array(items)) => r.len() == items@.len() && forall|i: int|
            0 <= i < r.len() ==> definition_matches(items@[i], #[trigger] r[i]),
        _ => r.len() == 0,
    }
}

fn definitions_member(fields: &Vec<(String, Json)>, key: &str) -> (r: Option<Vec<Definition>>)
    ensures
        r is Some <==> definitions_ok(field(fields@, key@)),
        r matches Some(t) ==> definitions_match(field(fields@, key@), t@),
{
    match get_field(fields, key) {
        None => Some(Vec::new()),
        Some(Json::Array(items)) => {
            let mut out: Vec<Definition> = Vec::new();
            let mut i: usize = 0;
            while i < items.len()
                invariant
                    i <= items@.len(),
                    out@.len() == i,
                    field(fields@, key@) == Some(Json::Array(*items)),
                    forall|k: int| 0 <= k < i ==> definition_ok(items@[k]),
                    forall|k: int| 0 <= k < i ==> definition_matches(items@[k], #[trigger] out@[k]),
                decreases items@.len() - i,
            {
                match definition_from(&items[i]) {
                    Some(x) => out.push(x),
                    None => {
                        assert(!definition_ok(field(fields@, key@)->0->Array_0@[i as int]));
                        return None;
                    },
                }
                i = i + 1;
            }
            Some(out)
        },
        Some(_) => None,
    }
}

/// A part-of-speech object.
pub open spec fn meaning_ok(j: Json) -> bool {
    &&& j is Object
    &&& text_ok(field(members(j), "partOfSpeech"@))
    &&& definitions_ok(field(members(j), "definitions"@))
    &&& texts_ok(field(members(j), "synonyms"@))
    &&& texts_ok(field(members(j), "antonyms"@))
}

/// `m` holds the part-of-speech object `j`.
pub open spec fn meaning_matches(j: Json, m: Meaning) -> bool {
    &&& j is Object
    &&& m.part_of_speech@ == text_value(field(members(j), "partOfSpeech"@))
    &&& definitions_match(field(members(j), "definitions"@), m.definitions@)
    &&& texts_match(field(members(j), "synonyms"@), m.synonyms@)
    &&& texts_match(field(members(j), "antonyms"@), m.antonyms@)
}

/// Reads a part-of-speech object.
pub fn meaning_from(j: &Json) -> (r: Option<Meaning>)
    ensures
        r is Some <==> meaning_ok(*j),
        r matches Some(m) ==> meaning_matches(*j, m),
{
    let fields = match j {
        Json::Object(fields) => fields,
        _ => return None,
    };
    let part_of_speech = match text_member(fields, "partOfSpeech") {
        Some(x) => x,
        None => return None,
    };
    let definitions = match definitions_member(fields, "definitions") {
        Some(x) => x,
        None => return None,
    };
    let synonyms = match texts_member(fields, "synonyms") {
        Some(x) => x,
        None => return None,
    };
    let antonyms = match texts_member(fields, "antonyms") {
        Some(x) => x,
        None => return None,
    };
    Some(Meaning { part_of_speech, definitions, synonyms, antonyms })
}

/// A parts of speech member: missing, or an array of well-formed items.
pub open spec fn meanings_ok(v: Option<Json>) -> bool {
    v is None || (v->0 is Array && forall|i: int|
        0 <= i < v->0->Array_0@.len() ==> meaning_ok(#[trigger] v->0->Array_0@[i]))
}

/// `r` holds the parts of speech member `v` item by item, in order; a missing member
/// is the empty list.
pub open spec fn meanings_match(v: Option<Json>, r: Seq<Meaning>) -> bool {
    match v {
        Some(Json::Array(items)) => r.len() == items@.len() && forall|i: int|
            0 <= i < r.len() ==> meaning_matches(items@[i], #[trigger] r[i]),
        _ => r.len() == 0,
    }
}

fn meanings_member(fields: &Vec<(String, Json)>, key: &str) -> (r: Option<Vec<Meaning>>)
    ensures
        r is Some <==> meanings_ok(field(fields@, key@)),
        r matches Some(t) ==> meanings_match(field(fields@, key@), t@),
{
    match get_field(fields, key) {
        None => Some(Vec::new()),
        Some(Json::Array(items)) => {
            let mut out: Vec<Meaning> = Vec::new();
            let mut i: usize = 0;
            while i < items.len()
                invariant
                    i <= items@.len(),
                    out@.len() == i,
                    field(fields@, key@) == Some(Json::Array(*items)),
                    forall|k: int| 0 <= k < i ==> meaning_ok(items@[k]),
                    forall|k: int| 0 <= k < i ==> meaning_matches(items@[k], #[trigger] out@[k]),
                decreases items@.len() - i,
            {
                match meaning_from(&items[i]) {
                    Some(x) => out.push(x),
                    None => {
                        assert(!meaning_ok(field(fields@, key@)->0->Array_0@[i as int]));
                        return None;
                    },
                }
                i = i + 1;
            }
            Some(out)
        },
        Some(_) => None,
    }
}

/// An entry object.
pub open spec fn entry_ok(j: Json) -> bool {
    &&& j is Object
    &&& text_ok(field(members(j), "word"@))
    &&& optional_text_ok(field(members(j), "phonetic"@))
    &&& phonetics_ok(field(members(j), "phonetics"@))
    &&& optional_text_ok(field(members(j), "origin"@))
    &&& meanings_ok(field(members(j), "meanings"@))
    &&& license_member_ok(field(members(j), "license"@))
    &&& texts_ok(field(members(j), "sourceUrls"@))
}

/// `e` holds the entry object `j`, member by member.
pub open spec fn entry_matches(j: Json, e: WordEntry) -> bool {
    &&& j is Object
    &&& e.word@ == text_value(field(members(j), "word"@))
    &&& optional_text_matches(field(members(j), "phonetic"@), e.phonetic)
    &&& phonetics_match(field(members(j), "phonetics"@), e.phonetics@)
    &&& optional_text_matches(field(members(j), "origin"@), e.origin)
    &&& meanings_match(field(members(j), "meanings"@), e.meanings@)
    &&& license_member_matches(field(members(j), "license"@), e.license)
    &&& texts_match(field(members(j), "sourceUrls"@), e.source_urls@)
}

/// Reads an entry object.
pub fn entry_from(j: &Json) -> (r: Option<WordEntry>)
    ensures
        r is Some <==> entry_ok(*j),
        r matches Some(e) ==> entry_matches(*j, e),
{
    let fields = match j {
        Json::Object(fields) => fields,
        _ => return None,
    };
    let word = match text_member(fields, "word") {
        Some(x) => x,
        None => return None,
    };
    let phonetic = match optional_text_member(fields, "phonetic") {
        Some(x) => x,
        None => return None,
    };
    let phonetics = match phonetics_member(fields, "phonetics") {
        Some(x) => x,
        None => return None,
    };
    let origin = match optional_text_member(fields, "origin") {
        Some(x) => x,
        None => return None,
    };
    let meanings = match meanings_member(fields, "meanings") {
        Some(x) => x,
        None => return None,
    };
    let license = match license_member(fields, "license") {
        Some(x) => x,
        None => return None,
    };
    let source_urls = match texts_member(fields, "sourceUrls") {
        Some(x) => x,
        None => return None,
    };
    Some(WordEntry { word, phonetic, phonetics, origin, meanings, license, source_urls })
}

/// The success shape: an array of entry objects.
pub open spec fn entries_ok(j: Json) -> bool {
    j is Array && forall|i: int| 0 <= i < j->Array_0@.len() ==> entry_ok(#[trigger] j->Array_0@[i])
}

/// `r` holds the array of entries `j` item by item, in order.
pub open spec fn entries_match(j: Json, r: Seq<WordEntry>) -> bool {
    &&& j is Array
    &&& r.len() == j->Array_0@.len()
    &&& forall|i: int| 0 <= i < r.len() ==> entry_matches(j->Array_0@[i], #[trigger] r[i])
}

/// Reads the success shape: an array of entries.
pub fn entries_from(j: &Json) -> (r: Option<Vec<WordEntry>>)
    ensures
        r is Some <==> entries_ok(*j),
        r matches Some(es) ==> entries_match(*j, es@),
{
    let items = match j {
        Json::Array(items) => items,
        _ => return None,
    };
    let mut out: Vec<WordEntry> = Vec::new();
    let mut i: usize = 0;
    while i < items.len()
        invariant
            i <= items@.len(),
            out@.len() == i,
            *j == Json::Array(*items),
            forall|k: int| 0 <= k < i ==> entry_ok(items@[k]),
            forall|k: int| 0 <= k < i ==> entry_matches(items@[k], #[trigger] out@[k]),
        decreases items@.len() - i,
    {
        match entry_from(&items[i]) {
            Some(x) => out.push(x),
            None => {
                assert(!entry_ok(j->Array_0@[i as int]));
                return None;
            },
        }
        i = i + 1;
    }
    Some(out)
}

/// The error shape: an object whose `title`, `message` and `resolution` are
/// strings where present.
pub open spec fn api_error_ok(j: Json) -> bool {
    &&& j is Object
    &&& text_ok(field(members(j), "title"@))
    &&& text_ok(field(members(j), "message"@))
    &&& text_ok(field(members(j), "resolution"@))
}

/// `e` holds the error object `j`.
pub open spec fn api_error_matches(j: Json, e: ApiError) -> bool {
    &&& j is Object
    &&& e.title@ == text_value(field(members(j), "title"@))
    &&& e.message@ == text_value(field(members(j), "message"@))
    &&& e.resolution@ == text_value(field(members(j), "resolution"@))
}

/// Reads the error shape.
pub fn api_error_from(j: &Json) -> (r: Option<ApiError>)
    ensures
        r is Some <==> api_error_ok(*j),
        r matches Some(e) ==> api_error_matches(*j, e),
{
    let fields = match j {
        Json::Object(fields) => fields,
        _ => return None,
    };
    let title = match text_member(fields, "title") {
        Some(x) => x,
        None => return None,
    };
    let message = match text_member(fields, "message") {
        Some(x) => x,
        None => return None,
    };
    let resolution = match text_member(fields, "resolution") {
        Some(x) => x,
        None => return None,
    };
    Some(ApiError { title, message, resolution })
}

/// What a decoded body means. The success shape is tried first; the error
/// shape only where that fails; a body of neither shape is malformed.
pub open spec fn parsed_as(j: Json, r: Result<LookupResult, ParseError>) -> bool {
    if entries_ok(j) {
        r matches Ok(LookupResult::Success(es)) && entries_match(j, es@)
    } else if api_error_ok(j) {
        r matches Ok(LookupResult::Failure(e)) && api_error_matches(j, e)
    } else {
        r is Err
    }
}

/// Reads a decoded response body: a list of entries, else the service's
/// error object, else a malformed response.
pub fn parse_tree(j: &Json) -> (r: Result<LookupResult, ParseError>)
    ensures
        parsed_as(*j, r),
{
    match entries_from(j) {
        Some(es) => Ok(LookupResult::Success(es)),
        None => match api_error_from(j) {
            Some(e) => Ok(LookupResult::Failure(e)),
            None => Err(
                ParseError::MalformedResponse(
                    String::from_str("neither a list of entries nor an error object"),
                ),
            ),
        },
    }
}

/// An array holding one well-formed entry object reads as a success with
/// exactly that one entry, member by member.
pub proof fn lemma_single_entry(j: Json, r: Result<LookupResult, ParseError>)
    requires
        j is Array,
        j->Array_0@.len() == 1,
        entry_ok(j->Array_0@[0]),
        parsed_as(j, r),
    ensures
        r matches Ok(LookupResult::Success(es)) && es@.len() == 1 && entry_matches(
            j->Array_0@[0],
            es@[0],
        ),
{
    assert(entries_ok(j));
}

/// An object with string `title`, `message` and `resolution` reads as the
/// service's error, with the three strings copied as they are.
pub proof fn lemma_error_object(j: Json, r: Result<LookupResult, ParseError>)
    requires
        j is Object,
        field(members(j), "title"@) matches Some(Json::Str(_)),
        field(members(j), "message"@) matches Some(Json::Str(_)),
        field(members(j), "resolution"@) matches Some(Json::Str(_)),
        parsed_as(j, r),
    ensures
        r matches Ok(LookupResult::Failure(e)) && e.title@ == field(
            members(j),
            "title"@,
        )->0->Str_0@ && e.message@ == field(members(j), "message"@)->0->Str_0@
            && e.resolution@ == field(members(j), "resolution"@)->0->Str_0@,
{
}

/// An entry object without a `phonetics` member is well formed as far as
/// that member goes, and reads with an empty list of pronunciations.
pub proof fn lemma_missing_phonetics(j: Json, e: WordEntry)
    requires
        j is Object,
        field(members(j), "phonetics"@) is None,
        entry_matches(j, e),
    ensures
        phonetics_ok(field(members(j), "phonetics"@)),
        e.phonetics@.len() == 0,
{
}

/// A body of neither shape is reported as malformed, never as an empty
/// success.
pub proof fn lemma_malformed(j: Json, r: Result<LookupResult, ParseError>)
    requires
        !entries_ok(j),
        !api_error_ok(j),
        parsed_as(j, r),
    ensures
        r matches Err(ParseError::MalformedResponse(_)),
{
}

} // verus!
