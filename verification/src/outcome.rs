//! The values a lookup ends in.

use vstd::prelude::*;

verus! {

/// Why a lookup produced no result.
#[derive(Clone, Copy, Debug, PartialEq, Eq, Structural)]
pub enum LookupFailure {
    /// A fetch failed, or the body fetched was not JSON.
    Network,
    /// A required field is missing or has the wrong type.
    Shape,
    /// The provider answered with an empty list of entries.
    EmptyResult,
}

impl LookupFailure {
    /// The text shown to the host for this failure.
    pub fn message(&self) -> (text: String)
        ensures
            text@ == "Response Parse Error"@,
    {
        "Response Parse Error".to_owned()
    }
}

/// One recorded pronunciation of the word.
#[derive(Clone, Debug, PartialEq, Eq)]
pub struct Pronunciation {
    /// Two-letter accent code taken from the audio's address.
    pub region: String,
    /// Phonetic transcription; empty where the provider gave none.
    pub symbol: String,
    /// The audio clip as fetched.
    pub audio: Vec<u8>,
}

pub struct PronunciationView {
    pub region: Seq<char>,
    pub symbol: Seq<char>,
    pub audio: Seq<u8>,
}

impl View for Pronunciation {
    type V = PronunciationView;

    open spec fn view(&self) -> PronunciationView {
        PronunciationView { region: self.region@, symbol: self.symbol@, audio: self.audio@ }
    }
}

impl DeepView for Pronunciation {
    type V = PronunciationView;

    open spec fn deep_view(&self) -> PronunciationView {
        self@
    }
}

/// The definitions of the word under one part of speech.
#[derive(Clone, Debug, PartialEq, Eq)]
pub struct Sense {
    pub part_of_speech: String,
    pub definitions: Vec<String>,
}

pub struct SenseView {
    pub part_of_speech: Seq<char>,
    pub definitions: Seq<Seq<char>>,
}

impl View for Sense {
    type V = SenseView;

    open spec fn view(&self) -> SenseView {
        SenseView {
            part_of_speech: self.part_of_speech@,
            definitions: self.definitions.deep_view(),
        }
    }
}

impl DeepView for Sense {
    type V = SenseView;

    open spec fn deep_view(&self) -> SenseView {
        self@
    }
}

/// A sentence that uses the word. No translation is made, so `target` is
/// always empty.
#[derive(Clone, Debug, PartialEq, Eq)]
pub struct ExampleSentence {
    pub source: String,
    pub target: String,
}

pub struct ExampleView {
    pub source: Seq<char>,
    pub target: Seq<char>,
}

impl View for ExampleSentence {
    type V = ExampleView;

    open spec fn view(&self) -> ExampleView {
        ExampleView { source: self.source@, target: self.target@ }
    }
}

impl DeepView for ExampleSentence {
    type V = ExampleView;

    open spec fn deep_view(&self) -> ExampleView {
        self@
    }
}

/// Everything a successful lookup yields, in the order of the source
/// document.
#[derive(Clone, Debug, PartialEq, Eq)]
pub struct LookupResult {
    pub pronunciations: Vec<Pronunciation>,
    pub senses: Vec<Sense>,
    /// Synonyms of all senses, one after another; a word may occur twice.
    pub related_words: Vec<String>,
    pub examples: Vec<ExampleSentence>,
}

pub struct LookupResultView {
    pub pronunciations: Seq<PronunciationView>,
    pub senses: Seq<SenseView>,
    pub related_words: Seq<Seq<char>>,
    pub examples: Seq<ExampleView>,
}

impl View for LookupResult {
    type V = LookupResultView;

    open spec fn view(&self) -> LookupResultView {
        LookupResultView {
            pronunciations: self.pronunciations.deep_view(),
            senses: self.senses.deep_view(),
            related_words: self.related_words.deep_view(),
            examples: self.examples.deep_view(),
        }
    }
}

/// How a lookup ended, as contracts see it.
pub open spec fn ending(result: Result<LookupResult, LookupFailure>) -> Result<
    LookupResultView,
    LookupFailure,
> {
    match result {
        Ok(found) => Ok(found@),
        Err(failure) => Err(failure),
    }
}

} // verus!
