use crate::model::{Definition, LookupResult, Meaning, Phonetic, WordEntry};
use crate::style::{
    bold, bold_bright_cyan, bold_bright_magenta, bold_bright_red, bold_bright_yellow, bold_spec,
    debug_quoted, debug_str, fg_spec,
};
use vstd::prelude::*;
use vstd::string::*;

verus! {

/// The texts `f` gives for the items of `s`, one after another.
pub open spec fn concat_map<A>(s: Seq<A>, f: spec_fn(A) -> Seq<char>) -> Seq<char>
    decreases s.len(),
{
    if s.len() == 0 {
        seq![]
    } else {
        concat_map(s.drop_last(), f) + f(s.last())
    }
}

proof fn lemma_concat_map_step<A>(s: Seq<A>, f: spec_fn(A) -> Seq<char>, i: int)
    requires
        0 <= i < s.len(),
    ensures
        concat_map(s.take(i + 1), f) == concat_map(s.take(i), f) + f(s[i]),
{
    assert(s.take(i + 1).drop_last() =~= s.take(i));
}

/// A section header: a star, the styled title, a line break.
pub open spec fn header(title: Seq<char>) -> Seq<char> {
    "* "@ + title + "\n"@
}

/// An indented line that gives `value` under a bold `label`.
pub open spec fn labeled(label: Seq<char>, value: Seq<char>) -> Seq<char> {
    "\t"@ + bold_spec(label) + ": "@ + value + "\n"@
}

/// A labeled line for a value that is present; nothing for an absent one.
pub open spec fn optional_labeled(label: Seq<char>, value: Option<String>) -> Seq<char> {
    match value {
        Some(v) => labeled(label, v@),
        None => seq![],
    }
}

/// The quoted items of a list, separated by a comma and a space.
pub open spec fn debug_items(items: Seq<String>) -> Seq<char>
    decreases items.len(),
{
    if items.len() == 0 {
        seq![]
    } else if items.len() == 1 {
        debug_str(items[0]@)
    } else {
        debug_items(items.drop_last()) + ", "@ + debug_str(items.last()@)
    }
}

/// A list of strings written as a bracketed literal, as `{:?}` writes a `Vec<String>`.
pub open spec fn debug_list(items: Seq<String>) -> Seq<char> {
    "["@ + debug_items(items) + "]"@
}

/// A labeled line holding a non-empty list; nothing for an empty one.
pub open spec fn list_labeled(label: Seq<char>, items: Seq<String>) -> Seq<char> {
    if items.len() == 0 {
        seq![]
    } else {
        labeled(label, debug_list(items))
    }
}

/// Writes a list of strings as a bracketed literal of quoted items.
pub fn render_list(items: &Vec<String>) -> (r: String)
    ensures
        r@ == debug_list(items@),
{
    let mut out = String::from_str("[");
    let mut i: usize = 0;
    while i < items.len()
        invariant
            i <= items@.len(),
            out@ == "["@ + debug_items(items@.take(i as int)),
        decreases items@.len() - i,
    {
        if i > 0 {
            out.append(", ");
        }
        let q = debug_quoted(items[i].as_str());
        out.append(q.as_str());
        proof {
            let s = items@.take(i as int + 1);
            assert(s.drop_last() =~= items@.take(i as int));
            assert(s.last() == items@[i as int]);
            if i == 0 {
                assert(debug_items(items@.take(0)) =~= seq![]);
            }
        }
        i = i + 1;
    }
    assert(items@.take(items@.len() as int) =~= items@);
    out.append("]");
    out
}

/// What the report shows of one pronunciation, closed by an empty line.
pub open spec fn phonetic_text(p: Phonetic) -> Seq<char> {
    optional_labeled("text"@, p.text) + (if p.audio@.len() == 0 {
        seq![]
    } else {
        labeled("audio"@, p.audio@)
    }) + optional_labeled("source"@, p.source_url) + "\n"@
}

/// What the report shows of one sense, closed by an empty line.
pub open spec fn definition_text(d: Definition) -> Seq<char> {
    labeled("definition"@, d.definition@) + optional_labeled("example"@, d.example)
        + list_labeled("synonyms"@, d.synonyms@) + list_labeled("antonyms"@, d.antonyms@)
        + "\n"@
}

/// What the report shows of one part of speech and its senses.
pub open spec fn meaning_text(m: Meaning) -> Seq<char> {
    header(fg_spec("11"@, bold_spec(m.part_of_speech@))) + list_labeled("synonyms"@, m.synonyms@)
        + list_labeled("antonyms"@, m.antonyms@) + concat_map(
        m.definitions@,
        |d: Definition| definition_text(d),
    )
}

/// The indented word, with its phonetic spelling in parentheses when there is
/// one, and an empty line after it.
pub open spec fn word_text(e: WordEntry) -> Seq<char> {
    "\t"@ + e.word@ + match e.phonetic {
        Some(p) => " ("@ + p@ + ")"@,
        None => seq![],
    } + "\n\n"@
}

/// The origin line, when the entry gives one.
pub open spec fn origin_text(e: WordEntry) -> Seq<char> {
    match e.origin {
        Some(o) => "Origin: "@ + o@ + "\n"@,
        None => seq![],
    }
}

/// The pronunciations section, absent when there are none.
pub open spec fn phonetics_text(e: WordEntry) -> Seq<char> {
    if e.phonetics@.len() == 0 {
        seq![]
    } else {
        header(fg_spec("14"@, bold_spec("phonetics"@))) + concat_map(
            e.phonetics@,
            |p: Phonetic| phonetic_text(p),
        )
    }
}

/// The sources section, absent when there are none.
pub open spec fn urls_text(e: WordEntry) -> Seq<char> {
    if e.source_urls@.len() == 0 {
        seq![]
    } else {
        header(fg_spec("13"@, bold_spec("urls"@))) + "\t"@ + debug_list(e.source_urls@) + "\n\n"@
    }
}

/// What the report shows of one entry, section by section in a fixed order.
pub open spec fn entry_text(e: WordEntry) -> Seq<char> {
    header(fg_spec("9"@, bold_spec("word"@))) + word_text(e) + origin_text(e) + phonetics_text(e)
        + concat_map(e.meanings@, |m: Meaning| meaning_text(m)) + urls_text(e)
}

/// The whole report: every entry in the order received.
pub open spec fn report_text(entries: Seq<WordEntry>) -> Seq<char> {
    concat_map(entries, |e: WordEntry| entry_text(e))
}


fn push_labeled(out: &mut String, label: &str, value: &str)
    ensures
        final(out)@ == old(out)@ + labeled(label@, value@),
{
    let b = bold(label);
    out.append("\t");
    out.append(b.as_str());
    out.append(": ");
    out.append(value);
    out.append("\n");
}

fn push_optional(out: &mut String, label: &str, value: &Option<String>)
    ensures
        final(out)@ == old(out)@ + optional_labeled(label@, *value),
{
    match value {
        Some(v) => push_labeled(out, label, v.as_str()),
        None => {
            assert(old(out)@ + seq![] =~= old(out)@);
        },
    }
}

fn push_list(out: &mut String, label: &str, items: &Vec<String>)
    ensures
        final(out)@ == old(out)@ + list_labeled(label@, items@),
{
    if items.is_empty() {
        assert(old(out)@ + seq![] =~= old(out)@);
    } else {
        let l = render_list(items);
        push_labeled(out, label, l.as_str());
    }
}

/// Writes one pronunciation: its text, its recording when there is one, its
/// source, then an empty line.
pub fn render_phonetic(p: &Phonetic) -> (r: String)
    ensures
        r@ == phonetic_text(*p),
{
    let mut out = String::new();
    push_optional(&mut out, "text", &p.text);
    if !p.audio.as_str().is_empty() {
        push_labeled(&mut out, "audio", p.audio.as_str());
    } else {
        assert(out@ + seq![] =~= out@);
    }
    push_optional(&mut out, "source", &p.source_url);
    out.append("\n");
    assert(out@ =~= phonetic_text(*p));
    out
}

/// Writes one sense: the definition, then its example, synonyms and antonyms
/// where present, then an empty line.
pub fn render_definition(d: &Definition) -> (r: String)
    ensures
        r@ == definition_text(*d),
{
    let mut out = String::new();
    push_labeled(&mut out, "definition", d.definition.as_str());
    push_optional(&mut out, "example", &d.example);
    push_list(&mut out, "synonyms", &d.synonyms);
    push_list(&mut out, "antonyms", &d.antonyms);
    out.append("\n");
    assert(out@ =~= definition_text(*d));
    out
}

/// Writes one part of speech: its header, its own synonyms and antonyms, and
/// each of its senses in order.
pub fn render_meaning(m: &Meaning) -> (r: String)
    ensures
        r@ == meaning_text(*m),
{
    let ghost f = |d: Definition| definition_text(d);
    let title = bold_bright_yellow(m.part_of_speech.as_str());
    let mut out = String::from_str("* ");
    out.append(title.as_str());
    out.append("\n");
    push_list(&mut out, "synonyms", &m.synonyms);
    push_list(&mut out, "antonyms", &m.antonyms);
    let ghost start = out@;
    assert(concat_map(m.definitions@.take(0), f) =~= seq![]);
    let mut i: usize = 0;
    while i < m.definitions.len()
        invariant
            i <= m.definitions@.len(),
            f == (|d: Definition| definition_text(d)),
            out@ == start + concat_map(m.definitions@.take(i as int), f),
        decreases m.definitions@.len() - i,
    {
        let t = render_definition(&m.definitions[i]);
        out.append(t.as_str());
        proof {
            lemma_concat_map_step(m.definitions@, f, i as int);
            assert(out@ =~= start + concat_map(m.definitions@.take(i + 1), f));
        }
        i = i + 1;
    }
    assert(m.definitions@.take(m.definitions@.len() as int) =~= m.definitions@);
    assert(out@ =~= meaning_text(*m));
    out
}

/// Writes the word line: the word alone, or followed by its phonetic spelling
/// in parentheses.
pub fn render_word(e: &WordEntry) -> (r: String)
    ensures
        r@ == word_text(*e),
        e.phonetic is None ==> r@ == "\t"@ + e.word@ + "\n\n"@,
        e.phonetic matches Some(p) ==> r@ == "\t"@ + e.word@ + " ("@ + p@ + ")"@ + "\n\n"@,
{
    let mut out = String::from_str("\t");
    out.append(e.word.as_str());
    match &e.phonetic {
        Some(p) => {
            out.append(" (");
            out.append(p.as_str());
            out.append(")");
        },
        None => {},
    }
    out.append("\n\n");
    assert(out@ =~= word_text(*e));
    out
}

fn render_phonetics(e: &WordEntry) -> (r: String)
    ensures
        r@ == phonetics_text(*e),
{
    let ghost fp = |p: Phonetic| phonetic_text(p);
    if e.phonetics.is_empty() {
        return String::new();
    }
    let t = bold_bright_cyan("phonetics");
    let mut out = String::from_str("* ");
    out.append(t.as_str());
    out.append("\n");
    let ghost start = out@;
    assert(concat_map(e.phonetics@.take(0), fp) =~= seq![]);
    let mut i: usize = 0;
    while i < e.phonetics.len()
        invariant
            i <= e.phonetics@.len(),
            fp == (|p: Phonetic| phonetic_text(p)),
            out@ == start + concat_map(e.phonetics@.take(i as int), fp),
        decreases e.phonetics@.len() - i,
    {
        let t = render_phonetic(&e.phonetics[i]);
        out.append(t.as_str());
        proof {
            lemma_concat_map_step(e.phonetics@, fp, i as int);
            assert(out@ =~= start + concat_map(e.phonetics@.take(i + 1), fp));
        }
        i = i + 1;
    }
    assert(e.phonetics@.take(e.phonetics@.len() as int) =~= e.phonetics@);
    assert(out@ =~= phonetics_text(*e));
    out
}

fn render_meanings(ms: &Vec<Meaning>) -> (r: String)
    ensures
        r@ == concat_map(ms@, |m: Meaning| meaning_text(m)),
{
    let ghost fm = |m: Meaning| meaning_text(m);
    let mut out = String::new();
    assert(concat_map(ms@.take(0), fm) =~= seq![]);
    let mut i: usize = 0;
    while i < ms.len()
        invariant
            i <= ms@.len(),
            fm == (|m: Meaning| meaning_text(m)),
            out@ == concat_map(ms@.take(i as int), fm),
        decreases ms@.len() - i,
    {
        let t = render_meaning(&ms[i]);
        out.append(t.as_str());
        proof {
            lemma_concat_map_step(ms@, fm, i as int);
            assert(out@ =~= concat_map(ms@.take(i + 1), fm));
        }
        i = i + 1;
    }
    assert(ms@.take(ms@.len() as int) =~= ms@);
    out
}

fn render_urls(e: &WordEntry) -> (r: String)
    ensures
        r@ == urls_text(*e),
{
    if e.source_urls.is_empty() {
        return String::new();
    }
    let t = bold_bright_magenta("urls");
    let mut out = String::from_str("* ");
    out.append(t.as_str());
    out.append("\n");
    out.append("\t");
    let l = render_list(&e.source_urls);
    out.append(l.as_str());
    out.append("\n\n");
    assert(out@ =~= urls_text(*e));
    out
}

fn render_origin(e: &WordEntry) -> (r: String)
    ensures
        r@ == origin_text(*e),
{
    match &e.origin {
        Some(o) => {
            let mut out = String::from_str("Origin: ");
            out.append(o.as_str());
            out.append("\n");
            out
        },
        None => String::new(),
    }
}

/// Writes one entry: the word, its origin, its pronunciations, its meanings
/// and its sources, each section only where there is something to show.
pub fn render_entry(e: &WordEntry) -> (r: String)
    ensures
        r@ == entry_text(*e),
{
    let title = bold_bright_red("word");
    let mut out = String::from_str("* ");
    out.append(title.as_str());
    out.append("\n");
    let w = render_word(e);
    out.append(w.as_str());
    let o = render_origin(e);
    out.append(o.as_str());
    let p = render_phonetics(e);
    out.append(p.as_str());
    let m = render_meanings(&e.meanings);
    out.append(m.as_str());
    let u = render_urls(e);
    out.append(u.as_str());
    assert(out@ =~= entry_text(*e));
    out
}

/// Writes the report of a successful lookup: every entry, in the order given.
pub fn render(entries: &Vec<WordEntry>) -> (r: String)
    ensures
        r@ == report_text(entries@),
{
    let ghost fe = |e: WordEntry| entry_text(e);
    let mut out = String::new();
    assert(concat_map(entries@.take(0), fe) =~= seq![]);
    let mut i: usize = 0;
    while i < entries.len()
        invariant
            i <= entries@.len(),
            fe == (|w: WordEntry| entry_text(w)),
            out@ == concat_map(entries@.take(i as int), fe),
        decreases entries@.len() - i,
    {
        let t = render_entry(&entries[i]);
        out.append(t.as_str());
        proof {
            lemma_concat_map_step(entries@, fe, i as int);
            assert(out@ =~= concat_map(entries@.take(i + 1), fe));
        }
        i = i + 1;
    }
    assert(entries@.take(entries@.len() as int) =~= entries@);
    assert(out@ =~= report_text(entries@));
    out
}

/// What the terminal shows for an answer of the service: the report of the
/// entries, or the service's message after `Error: `.
pub open spec fn outcome_text(r: LookupResult) -> Seq<char> {
    match r {
        LookupResult::Success(es) => report_text(es@),
        LookupResult::Failure(e) => "Error: "@ + e.message@ + "\n"@,
    }
}

/// Writes what the terminal shows for an answer of the service.
pub fn render_outcome(r: &LookupResult) -> (out: String)
    ensures
        out@ == outcome_text(*r),
{
    match r {
        LookupResult::Success(es) => render(es),
        LookupResult::Failure(e) => {
            let mut out = String::from_str("Error: ");
            out.append(e.message.as_str());
            out.append("\n");
            out
        },
    }
}

/// A sense without synonyms and antonyms shows no line for either: only the
/// definition, its example where there is one, and the closing empty line.
pub proof fn lemma_definition_without_lists(d: Definition)
    requires
        d.synonyms@.len() == 0,
        d.antonyms@.len() == 0,
    ensures
        definition_text(d) == labeled("definition"@, d.definition@) + optional_labeled(
            "example"@,
            d.example,
        ) + "\n"@,
{
    assert(definition_text(d) =~= labeled("definition"@, d.definition@) + optional_labeled(
        "example"@,
        d.example,
    ) + "\n"@);
}

} // verus!
