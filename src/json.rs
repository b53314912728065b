use vstd::prelude::*;
use vstd::string::*;

verus! {

/// A decoded JSON document. Object members keep the order in which they
/// were handed over.
#[derive(Debug)]
pub enum Json {
    Null,
    Bool(bool),
    /// A number, kept as its text.
    Number(String),
    Str(String),
    Array(Vec<Json>),
    Object(Vec<(String, Json)>),
}

/// The value of member `key` among `fields`; where the key occurs more than
/// once, the last occurrence counts.
pub open spec fn field(fields: Seq<(String, Json)>, key: Seq<char>) -> Option<Json>
    decreases fields.len(),
{
    if fields.len() == 0 {
        None
    } else if fields.last().0@ == key {
        Some(fields.last().1)
    } else {
        field(fields.drop_last(), key)
    }
}

/// Looks up member `key` of an object.
pub fn get_field<'a>(fields: &'a Vec<(String, Json)>, key: &str) -> (r: Option<&'a Json>)
    ensures
        match r {
            Some(v) => field(fields@, key@) == Some(*v),
            None => field(fields@, key@) is None,
        },
{
    let k = String::from_str(key);
    let mut found: Option<&'a Json> = None;
    let mut i: usize = 0;
    while i < fields.len()
        invariant
            i <= fields@.len(),
            k@ == key@,
            match found {
                Some(v) => field(fields@.take(i as int), key@) == Some(*v),
                None => field(fields@.take(i as int), key@) is None,
            },
        decreases fields@.len() - i,
    {
        if fields[i].0 == k {
            found = Some(&fields[i].1);
        }
        proof {
            assert(fields@.take(i + 1).drop_last() =~= fields@.take(i as int));
        }
        i = i + 1;
    }
    assert(fields@.take(fields@.len() as int) =~= fields@);
    found
}

} // verus!
