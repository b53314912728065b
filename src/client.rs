use vstd::prelude::*;
use vstd::string::*;

verus! {

/// Endpoint of the dictionary service; the word follows it after a slash.
pub const BASE_URL: &'static str = "https://api.dictionaryapi.dev/api/v2/entries/en";

/// The request target for `word`: the endpoint, a slash, and the word as given.
pub open spec fn request_url_spec(word: Seq<char>) -> Seq<char> {
    BASE_URL@ + "/"@ + word
}

/// Builds the address to fetch for `word`, inserting the word verbatim.
pub fn request_url(word: &str) -> (r: String)
    ensures
        r@ == request_url_spec(word@),
{
    let mut url = String::from_str(BASE_URL);
    url.append("/");
    url.append(word);
    url
}

/// The command line was not one word.
#[derive(Debug, Clone, PartialEq, Eq)]
pub enum UsageError {
    WrongArgumentCount,
}

/// Picks the word to look up from the command line (program name first):
/// exactly one argument must follow the program name.
pub fn word_argument(args: &Vec<String>) -> (r: Result<String, UsageError>)
    ensures
        args@.len() == 2 <==> r is Ok,
        r matches Ok(w) ==> w@ == args@[1]@,
{
    if args.len() != 2 {
        return Err(UsageError::WrongArgumentCount);
    }
    Ok(args[1].clone())
}

} // verus!
