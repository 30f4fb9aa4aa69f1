//! What is asked of the provider.

use vstd::prelude::*;
use vstd::string::StringExecFns;

verus! {

/// A word to look up in the dictionary of one language.
#[derive(Clone, Debug, PartialEq, Eq)]
pub struct LookupRequest {
    /// The word.
    pub text: String,
    /// The language of the dictionary, as the provider names it (`en`).
    pub target_language: String,
}

/// The address of the entry for `text` in the dictionary of
/// `target_language`. Both are put into the address as they are.
pub open spec fn entry_url_of(target_language: Seq<char>, text: Seq<char>) -> Seq<char> {
    "https://api.dictionaryapi.dev/api/v2/entries/"@ + target_language + "/"@ + text
}

impl LookupRequest {
    pub fn new(text: &str, target_language: &str) -> (request: LookupRequest)
        ensures
            request.text@ == text@,
            request.target_language@ == target_language@,
    {
        LookupRequest { text: text.to_owned(), target_language: target_language.to_owned() }
    }

    /// The address to fetch the entry from.
    pub fn entry_url(&self) -> (url: String)
        ensures
            url@ == entry_url_of(self.target_language@, self.text@),
    {
        let mut url = "https://api.dictionaryapi.dev/api/v2/entries/".to_owned();
        url.append(self.target_language.as_str());
        url.append("/");
        url.append(self.text.as_str());
        url
    }
}

} // verus!
