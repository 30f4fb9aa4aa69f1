//! The accent code that the provider embeds in the address of an audio clip.
//!
//! Clips are named like `word-us.mp3`: the code is the two characters in
//! front of the four-character extension. Nothing else of the address is
//! read, so this is the one place to change should the naming ever change.

use vstd::prelude::*;
use vstd::string::StrSliceExecFns;

verus! {

/// The accent code in `url`: of its last six characters, the first two.
/// An address of fewer than six characters has none.
pub open spec fn region_of(url: Seq<char>) -> Option<Seq<char>> {
    if url.len() >= 6 {
        Some(url.subrange(url.len() - 6, url.len() - 4))
    } else {
        None
    }
}

/// Extracts the accent code from the address of an audio clip.
pub fn extract_region(url: &str) -> (region: Option<String>)
    ensures
        match region {
            Some(code) => region_of(url@) == Some(code@) && code@.len() == 2,
            None => region_of(url@) is None,
        },
{
    let length: usize = url.unicode_len();
    if length < 6 {
        None
    } else {
        Some(url.substring_char(length - 6, length - 4).to_owned())
    }
}

} // verus!
