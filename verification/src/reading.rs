//! What a document says: the meaning of an entry, stated over its tree.
//!
//! Nothing here runs. These functions are the vocabulary in which the
//! contracts of [`crate::normalize`] are written.

use crate::json::JsonTree;
use crate::outcome::{ExampleView, LookupFailure, LookupResultView, PronunciationView, SenseView};
use crate::region::region_of;
use vstd::prelude::*;

verus! {

/// What one element of `phonetics` asks of the reader.
pub enum Phonetic {
    /// `audio` is missing or no string, the address is too short to hold an
    /// accent code, or `text` is present and no string.
    Malformed,
    /// `audio` is the empty string: reading of pronunciations ends here.
    Silent,
    /// A clip is to be fetched from `url`.
    Voiced { url: Seq<char>, region: Seq<char>, symbol: Seq<char> },
}

/// The transcription of a phonetics element: its `text`, or nothing where it
/// has no such member. `None` where `text` is no string.
pub open spec fn symbol_of(item: JsonTree) -> Option<Seq<char>> {
    match item.member("text"@) {
        Some(text) => text.text(),
        None => Some(Seq::empty()),
    }
}

pub open spec fn phonetic(item: JsonTree) -> Phonetic {
    match item.member("audio"@) {
        Some(JsonTree::Text(url)) => if url.len() == 0 {
            Phonetic::Silent
        } else {
            match (region_of(url), symbol_of(item)) {
                (Some(region), Some(symbol)) => Phonetic::Voiced { url, region, symbol },
                _ => Phonetic::Malformed,
            }
        },
        _ => Phonetic::Malformed,
    }
}

/// The pronunciation that `item` yields once `audio` has been fetched for it.
pub open spec fn voiced(item: JsonTree, audio: Seq<u8>) -> PronunciationView
    recommends
        phonetic(item) is Voiced,
{
    PronunciationView {
        region: phonetic(item)->region,
        symbol: phonetic(item)->symbol,
        audio,
    }
}

/// Every element is a string.
pub open spec fn all_text(items: Seq<JsonTree>) -> bool {
    forall|i: int| 0 <= i < items.len() ==> (#[trigger] items[i]).text() is Some
}

/// The strings of `items`, in order.
pub open spec fn texts_of(items: Seq<JsonTree>) -> Seq<Seq<char>>
    recommends
        all_text(items),
{
    items.map_values(|item: JsonTree| item.text().unwrap())
}

/// A definition is well formed if `definition` is a string and `example`,
/// where present, is one too.
pub open spec fn definition_ok(definition: JsonTree) -> bool {
    &&& definition.member("definition"@) matches Some(body) && body.text() is Some
    &&& definition.member("example"@) matches Some(example) ==> example.text() is Some
}

pub open spec fn definition_text(definition: JsonTree) -> Seq<char> {
    definition.member("definition"@).unwrap().text().unwrap()
}

pub open spec fn has_example(definition: JsonTree) -> bool {
    definition.member("example"@) is Some
}

pub open spec fn example_of(definition: JsonTree) -> ExampleView {
    ExampleView {
        source: definition.member("example"@).unwrap().text().unwrap(),
        target: Seq::empty(),
    }
}

pub open spec fn all_definitions_ok(definitions: Seq<JsonTree>) -> bool {
    forall|i: int| 0 <= i < definitions.len() ==> definition_ok(#[trigger] definitions[i])
}

/// The examples that `definitions` carry, in order; a definition without an
/// example contributes none.
pub open spec fn examples_in(definitions: Seq<JsonTree>) -> Seq<ExampleView> {
    definitions.filter(|definition: JsonTree| has_example(definition)).map_values(
        |definition: JsonTree| example_of(definition),
    )
}

pub open spec fn definitions_of(meaning: JsonTree) -> Seq<JsonTree> {
    meaning.member("definitions"@).unwrap().items().unwrap()
}

pub open spec fn synonym_items(meaning: JsonTree) -> Seq<JsonTree> {
    meaning.member("synonyms"@).unwrap().items().unwrap()
}

/// An element of `meanings` is well formed if `partOfSpeech` is a string,
/// `definitions` an array of well-formed definitions and `synonyms` an array
/// of strings.
pub open spec fn meaning_ok(meaning: JsonTree) -> bool {
    &&& meaning.member("partOfSpeech"@) matches Some(part) && part.text() is Some
    &&& meaning.member("definitions"@) matches Some(list) && list.items() is Some
    &&& all_definitions_ok(definitions_of(meaning))
    &&& meaning.member("synonyms"@) matches Some(list) && list.items() is Some
    &&& all_text(synonym_items(meaning))
}

pub open spec fn sense_of(meaning: JsonTree) -> SenseView {
    SenseView {
        part_of_speech: meaning.member("partOfSpeech"@).unwrap().text().unwrap(),
        definitions: definitions_of(meaning).map_values(
            |definition: JsonTree| definition_text(definition),
        ),
    }
}

pub open spec fn synonyms_of(meaning: JsonTree) -> Seq<Seq<char>> {
    texts_of(synonym_items(meaning))
}

pub open spec fn examples_of(meaning: JsonTree) -> Seq<ExampleView> {
    examples_in(definitions_of(meaning))
}

pub open spec fn all_meanings_ok(meanings: Seq<JsonTree>) -> bool {
    forall|i: int| 0 <= i < meanings.len() ==> meaning_ok(#[trigger] meanings[i])
}

pub open spec fn senses_of(meanings: Seq<JsonTree>) -> Seq<SenseView> {
    meanings.map_values(|meaning: JsonTree| sense_of(meaning))
}

/// The synonyms of all meanings, one meaning after another.
pub open spec fn related_words_of(meanings: Seq<JsonTree>) -> Seq<Seq<char>> {
    meanings.map_values(|meaning: JsonTree| synonyms_of(meaning)).flatten()
}

/// The examples of all meanings, one meaning after another.
pub open spec fn all_examples_of(meanings: Seq<JsonTree>) -> Seq<ExampleView> {
    meanings.map_values(|meaning: JsonTree| examples_of(meaning)).flatten()
}

/// `item` is the element of `list` at `place`.
pub open spec fn stands_at<A>(list: Seq<A>, place: int, item: A) -> bool {
    0 <= place < list.len() && list[place] == item
}

/// The result of a lookup whose pronunciations are `heard`, once `meanings`
/// has been read.
pub open spec fn closing(meanings: JsonTree, heard: Seq<PronunciationView>) -> Result<
    LookupResultView,
    LookupFailure,
> {
    match meanings.items() {
        Some(list) => if all_meanings_ok(list) {
            Ok(
                LookupResultView {
                    pronunciations: heard,
                    senses: senses_of(list),
                    related_words: related_words_of(list),
                    examples: all_examples_of(list),
                },
            )
        } else {
            Err(LookupFailure::Shape)
        },
        None => Err(LookupFailure::Shape),
    }
}

/// The two parts of an entry that are read.
pub struct Layout {
    /// The elements of `phonetics`.
    pub phonetics: Seq<JsonTree>,
    /// The value of `meanings`, not yet known to be an array.
    pub meanings: JsonTree,
}

/// Where the parts of an entry are found: in the first element of the
/// top-level array, which must have both `phonetics`, an array, and
/// `meanings`.
pub open spec fn layout(entry: JsonTree) -> Result<Layout, LookupFailure> {
    match entry.items() {
        Some(entries) => if entries.len() == 0 {
            Err(LookupFailure::EmptyResult)
        } else {
            match (entries[0].member("phonetics"@), entries[0].member("meanings"@)) {
                (Some(JsonTree::Array(phonetics)), Some(meanings)) => Ok(
                    Layout { phonetics, meanings },
                ),
                _ => Err(LookupFailure::Shape),
            }
        },
        None => Err(LookupFailure::Shape),
    }
}

/// The pronunciations of `phonetics`, given that `heard` have been gathered
/// from its first elements and that the fetches still to come end as
/// `fetched` says: `fetched[i]` is the clip fetched for element `i`, `None`
/// where that fetch fails. A fetch that `fetched` does not list fails.
///
/// Reading stops without failure at the end of `phonetics` and at the first
/// silent element, whatever follows it.
pub open spec fn spoken(
    phonetics: Seq<JsonTree>,
    fetched: Seq<Option<Seq<u8>>>,
    heard: Seq<PronunciationView>,
) -> Result<Seq<PronunciationView>, LookupFailure>
    decreases phonetics.len() - heard.len(),
{
    let at = heard.len() as int;
    if at >= phonetics.len() {
        Ok(heard)
    } else {
        match phonetic(phonetics[at]) {
            Phonetic::Malformed => Err(LookupFailure::Shape),
            Phonetic::Silent => Ok(heard),
            Phonetic::Voiced { .. } => if at < fetched.len() && fetched[at] is Some {
                spoken(phonetics, fetched, heard.push(voiced(phonetics[at], fetched[at].unwrap())))
            } else {
                Err(LookupFailure::Network)
            },
        }
    }
}

/// The pronunciations gathered from the first `count` elements of
/// `phonetics`, each of which had its clip fetched.
pub open spec fn heard_after(
    phonetics: Seq<JsonTree>,
    fetched: Seq<Option<Seq<u8>>>,
    count: nat,
) -> Seq<PronunciationView>
    recommends
        fetches_succeed(phonetics, fetched, count),
{
    Seq::new(count, |i: int| voiced(phonetics[i], fetched[i].unwrap()))
}

/// The first `count` elements of `phonetics` each ask for a clip, and each
/// of these fetches succeeds.
pub open spec fn fetches_succeed(
    phonetics: Seq<JsonTree>,
    fetched: Seq<Option<Seq<u8>>>,
    count: nat,
) -> bool {
    &&& count <= phonetics.len()
    &&& count <= fetched.len()
    &&& forall|i: int|
        0 <= i < count ==> phonetic(#[trigger] phonetics[i]) is Voiced && fetched[i] is Some
}

/// Where a lookup stands between two fetches.
pub enum Progress {
    /// A clip is awaited from `url`; `heard` have been gathered so far.
    Awaiting { url: Seq<char>, heard: Seq<PronunciationView> },
    /// The lookup is over.
    Finished(Result<LookupResultView, LookupFailure>),
}

/// Where a lookup stands once `heard` have been gathered from the first
/// elements of `parts.phonetics`.
pub open spec fn due(parts: Layout, heard: Seq<PronunciationView>) -> Progress {
    let at = heard.len() as int;
    if at >= parts.phonetics.len() {
        Progress::Finished(closing(parts.meanings, heard))
    } else {
        match phonetic(parts.phonetics[at]) {
            Phonetic::Malformed => Progress::Finished(Err(LookupFailure::Shape)),
            Phonetic::Silent => Progress::Finished(closing(parts.meanings, heard)),
            Phonetic::Voiced { url, .. } => Progress::Awaiting { url, heard },
        }
    }
}

/// Where a lookup stands before any fetch.
pub open spec fn opening(entry: JsonTree) -> Progress {
    match layout(entry) {
        Ok(parts) => due(parts, Seq::empty()),
        Err(failure) => Progress::Finished(Err(failure)),
    }
}

/// Where a lookup stands once the fetch that it awaited after `heard` has
/// ended in `audio`: a fetch that failed ends the lookup.
pub open spec fn answered(
    entry: JsonTree,
    heard: Seq<PronunciationView>,
    audio: Option<Seq<u8>>,
) -> Progress
    recommends
        layout(entry) is Ok,
        due(layout(entry).unwrap(), heard) is Awaiting,
{
    let parts = layout(entry).unwrap();
    match audio {
        Some(clip) => due(parts, heard.push(voiced(parts.phonetics[heard.len() as int], clip))),
        None => Progress::Finished(Err(LookupFailure::Network)),
    }
}

/// Where a lookup stands after the fetches that `fetched` lists, in order.
/// Once the lookup is over, further outcomes change nothing.
pub open spec fn progress_after(entry: JsonTree, fetched: Seq<Option<Seq<u8>>>) -> Progress
    decreases fetched.len(),
{
    if fetched.len() == 0 {
        opening(entry)
    } else {
        match progress_after(entry, fetched.drop_last()) {
            Progress::Awaiting { heard, .. } => answered(entry, heard, fetched.last()),
            Progress::Finished(result) => Progress::Finished(result),
        }
    }
}

/// Each outcome in `fetched` answers a fetch that the lookup asked for: the
/// lookup awaited a clip whenever the next outcome came in.
pub open spec fn all_awaited(entry: JsonTree, fetched: Seq<Option<Seq<u8>>>) -> bool {
    forall|i: int|
        0 <= i < fetched.len() ==> progress_after(entry, #[trigger] fetched.take(i)) is Awaiting
}

/// The result of normalising `entry` when the audio fetches end as `fetched`
/// says (see [`spoken`]).
///
/// Pronunciations are read first, then meanings; the first violation met
/// decides the failure.
pub open spec fn normalized(entry: JsonTree, fetched: Seq<Option<Seq<u8>>>) -> Result<
    LookupResultView,
    LookupFailure,
> {
    match layout(entry) {
        Ok(parts) => match spoken(parts.phonetics, fetched, Seq::empty()) {
            Ok(heard) => closing(parts.meanings, heard),
            Err(failure) => Err(failure),
        },
        Err(failure) => Err(failure),
    }
}

} // verus!
