//! Reading an entry into a [`LookupResult`].

use crate::json::{as_array, as_str, get, tree_of, trees_of, JsonTree, RawEntry};
use crate::laws::{lemma_awaiting, lemma_steps_normalize};
use crate::outcome::{
    ending, ExampleSentence, LookupFailure, LookupResult, LookupResultView, Pronunciation,
    PronunciationView, Sense,
};
use crate::reading::{
    all_awaited, all_definitions_ok, all_examples_of, all_text, answered, closing, definition_ok,
    definition_text, due, example_of, examples_in, examples_of, has_example, layout, meaning_ok,
    normalized, opening, phonetic, progress_after, related_words_of, sense_of, senses_of,
    synonyms_of, texts_of, Layout, Phonetic, Progress,
};
use crate::region::extract_region;
use vstd::prelude::*;

verus! {

/// Reads an array of strings; `None` where an element is no string.
fn read_texts(values: &Vec<serde_json::Value>) -> (texts: Option<Vec<String>>)
    ensures
        match texts {
            Some(read) => all_text(trees_of(values@)) && read.deep_view() == texts_of(
                trees_of(values@),
            ),
            None => !all_text(trees_of(values@)),
        },
{
    let ghost trees = trees_of(values@);
    let mut read: Vec<String> = Vec::new();
    let mut at: usize = 0;
    while at < values.len()
        invariant
            at <= values.len(),
            trees == trees_of(values@),
            read.len() == at,
            forall|i: int| 0 <= i < at ==> (#[trigger] trees[i]).text() == Some(read@[i]@),
        decreases values.len() - at,
    {
        match as_str(&values[at]) {
            Some(chars) => {
                read.push(chars.to_owned());
            },
            None => {
                assert(trees[at as int].text() is None);
                return None;
            },
        }
        at += 1;
    }
    assert(read.deep_view() =~= texts_of(trees));
    Some(read)
}

/// Reads the definitions of one meaning: their texts, and the examples that
/// they carry.
fn read_definitions(values: &Vec<serde_json::Value>) -> (read: Option<
    (Vec<String>, Vec<ExampleSentence>),
>)
    ensures
        match read {
            Some((texts, examples)) => {
                &&& all_definitions_ok(trees_of(values@))
                &&& texts.deep_view() == trees_of(values@).map_values(
                    |definition: JsonTree| definition_text(definition),
                )
                &&& examples.deep_view() == examples_in(trees_of(values@))
            },
            None => !all_definitions_ok(trees_of(values@)),
        },
{
    let ghost trees = trees_of(values@);
    let mut texts: Vec<String> = Vec::new();
    let mut examples: Vec<ExampleSentence> = Vec::new();
    let mut at: usize = 0;
    proof {
        assert(trees.take(0) =~= Seq::empty());
        assert(examples.deep_view() =~= examples_in(trees.take(0))) by {
            reveal(Seq::filter);
        }
    }
    while at < values.len()
        invariant
            at <= values.len(),
            trees == trees_of(values@),
            texts.len() == at,
            forall|i: int| 0 <= i < at ==> definition_ok(#[trigger] trees[i]),
            forall|i: int| 0 <= i < at ==> definition_text(#[trigger] trees[i]) == texts@[i]@,
            examples.deep_view() == examples_in(trees.take(at as int)),
        decreases values.len() - at,
    {
        let definition = &values[at];
        let ghost tree = trees[at as int];
        let ghost before = examples.deep_view();
        match get(definition, "definition") {
            Some(body) => match as_str(body) {
                Some(chars) => {
                    texts.push(chars.to_owned());
                },
                None => return None,
            },
            None => return None,
        }
        match get(definition, "example") {
            Some(example) => match as_str(example) {
                Some(chars) => {
                    examples.push(
                        ExampleSentence { source: chars.to_owned(), target: String::new() },
                    );
                    assert(examples.deep_view() =~= before.push(example_of(tree)));
                },
                None => return None,
            },
            None => {},
        }
        proof {
            let so_far = trees.take(at as int);
            let keep = |definition: JsonTree| has_example(definition);
            let turn = |definition: JsonTree| example_of(definition);
            trees.lemma_take_succ_push(at as int);
            so_far.lemma_filter_push(tree, keep);
            so_far.filter(keep).lemma_push_map_commute(turn, tree);
        }
        at += 1;
    }
    proof {
        assert(trees.take(at as int) =~= trees);
        assert(texts.deep_view() =~= trees.map_values(
            |definition: JsonTree| definition_text(definition),
        ));
    }
    Some((texts, examples))
}

/// What one element of `meanings` contributes.
struct Meaning {
    sense: Sense,
    synonyms: Vec<String>,
    examples: Vec<ExampleSentence>,
}

/// Reads one element of `meanings`; `None` where it is not well formed.
fn read_meaning(value: &serde_json::Value) -> (read: Option<Meaning>)
    ensures
        match read {
            Some(meaning) => {
                &&& meaning_ok(tree_of(*value))
                &&& meaning.sense@ == sense_of(tree_of(*value))
                &&& meaning.synonyms.deep_view() == synonyms_of(tree_of(*value))
                &&& meaning.examples.deep_view() == examples_of(tree_of(*value))
            },
            None => !meaning_ok(tree_of(*value)),
        },
{
    let part_of_speech = match get(value, "partOfSpeech") {
        Some(part) => match as_str(part) {
            Some(chars) => chars.to_owned(),
            None => return None,
        },
        None => return None,
    };
    let definitions = match get(value, "definitions") {
        Some(list) => match as_array(list) {
            Some(elements) => elements,
            None => return None,
        },
        None => return None,
    };
    let (texts, examples) = match read_definitions(definitions) {
        Some(read) => read,
        None => return None,
    };
    let synonyms = match get(value, "synonyms") {
        Some(list) => match as_array(list) {
            Some(elements) => match read_texts(elements) {
                Some(words) => words,
                None => return None,
            },
            None => return None,
        },
        None => return None,
    };
    Some(Meaning { sense: Sense { part_of_speech, definitions: texts }, synonyms, examples })
}

/// Reads `meanings` and closes the lookup with the pronunciations gathered
/// before.
fn close(meanings: &serde_json::Value, heard: Vec<Pronunciation>) -> (result: Result<
    LookupResult,
    LookupFailure,
>)
    ensures
        ending(result) == closing(tree_of(*meanings), heard.deep_view()),
{
    let values = match as_array(meanings) {
        Some(elements) => elements,
        None => return Err(LookupFailure::Shape),
    };
    let ghost trees = trees_of(values@);
    let mut senses: Vec<Sense> = Vec::new();
    let mut related_words: Vec<String> = Vec::new();
    let mut examples: Vec<ExampleSentence> = Vec::new();
    let mut at: usize = 0;
    proof {
        assert(trees.take(0) =~= Seq::empty());
        assert(related_words.deep_view() =~= related_words_of(trees.take(0)));
        assert(examples.deep_view() =~= all_examples_of(trees.take(0)));
    }
    while at < values.len()
        invariant
            at <= values.len(),
            trees == trees_of(values@),
            tree_of(*meanings).items() == Some(trees),
            senses.len() == at,
            forall|i: int| 0 <= i < at ==> meaning_ok(#[trigger] trees[i]),
            forall|i: int| 0 <= i < at ==> sense_of(#[trigger] trees[i]) == senses@[i]@,
            related_words.deep_view() == related_words_of(trees.take(at as int)),
            examples.deep_view() == all_examples_of(trees.take(at as int)),
        decreases values.len() - at,
    {
        let ghost tree = trees[at as int];
        let ghost words_before = related_words.deep_view();
        let ghost examples_before = examples.deep_view();
        let mut meaning = match read_meaning(&values[at]) {
            Some(read) => read,
            None => return Err(LookupFailure::Shape),
        };
        senses.push(meaning.sense);
        related_words.append(&mut meaning.synonyms);
        examples.append(&mut meaning.examples);
        proof {
            let so_far = trees.take(at as int);
            let words = |meaning: JsonTree| synonyms_of(meaning);
            let shown = |meaning: JsonTree| examples_of(meaning);
            trees.lemma_take_succ_push(at as int);
            so_far.lemma_push_map_commute(words, tree);
            so_far.map_values(words).lemma_flatten_push(synonyms_of(tree));
            so_far.lemma_push_map_commute(shown, tree);
            so_far.map_values(shown).lemma_flatten_push(examples_of(tree));
            assert(related_words.deep_view() =~= words_before + synonyms_of(tree));
            assert(examples.deep_view() =~= examples_before + examples_of(tree));
        }
        at += 1;
    }
    proof {
        assert(trees.take(at as int) =~= trees);
        assert(senses.deep_view() =~= senses_of(trees));
    }
    Ok(LookupResult { pronunciations: heard, senses, related_words, examples })
}

/// What one element of `phonetics` asks of the reader.
enum Cue {
    Malformed,
    Silent,
    Voiced { url: String, region: String, symbol: String },
}

impl View for Cue {
    type V = Phonetic;

    closed spec fn view(&self) -> Phonetic {
        match self {
            Cue::Malformed => Phonetic::Malformed,
            Cue::Silent => Phonetic::Silent,
            Cue::Voiced { url, region, symbol } => Phonetic::Voiced {
                url: url@,
                region: region@,
                symbol: symbol@,
            },
        }
    }
}

/// Reads one element of `phonetics`.
fn read_phonetic(item: &serde_json::Value) -> (cue: Cue)
    ensures
        cue@ == phonetic(tree_of(*item)),
{
    let url = match get(item, "audio") {
        Some(audio) => match as_str(audio) {
            Some(chars) => chars,
            None => return Cue::Malformed,
        },
        None => return Cue::Malformed,
    };
    if url.is_empty() {
        return Cue::Silent;
    }
    let region = match extract_region(url) {
        Some(code) => code,
        None => return Cue::Malformed,
    };
    let symbol = match get(item, "text") {
        Some(text) => match as_str(text) {
            Some(chars) => chars.to_owned(),
            None => return Cue::Malformed,
        },
        None => String::new(),
    };
    Cue::Voiced { url: url.to_owned(), region, symbol }
}

/// The parts of an entry that are read, as they lie in the document.
struct Parts<'a> {
    phonetics: &'a Vec<serde_json::Value>,
    meanings: &'a serde_json::Value,
}

impl<'a> View for Parts<'a> {
    type V = Layout;

    closed spec fn view(&self) -> Layout {
        Layout { phonetics: trees_of(self.phonetics@), meanings: tree_of(*self.meanings) }
    }
}

/// Finds the parts of an entry.
fn locate<'a>(entry: &'a RawEntry) -> (found: Result<Parts<'a>, LookupFailure>)
    ensures
        match found {
            Ok(parts) => layout(entry@) == Ok::<Layout, LookupFailure>(parts@),
            Err(failure) => layout(entry@) == Err::<Layout, LookupFailure>(failure),
        },
{
    let entries = match as_array(entry.root()) {
        Some(elements) => elements,
        None => return Err(LookupFailure::Shape),
    };
    if entries.len() == 0 {
        return Err(LookupFailure::EmptyResult);
    }
    let body = &entries[0];
    let phonetics = match get(body, "phonetics") {
        Some(list) => list,
        None => return Err(LookupFailure::Shape),
    };
    let meanings = match get(body, "meanings") {
        Some(list) => list,
        None => return Err(LookupFailure::Shape),
    };
    match as_array(phonetics) {
        Some(elements) => Ok(Parts { phonetics: elements, meanings }),
        None => Err(LookupFailure::Shape),
    }
}

/// A lookup that waits for one audio clip.
///
/// It is handed out by [`begin`] and by [`Pending::resume`], and only when
/// the entry read so far is sound and its next phonetics element names a
/// clip.
pub struct Pending<'a> {
    entry: &'a RawEntry,
    parts: Parts<'a>,
    heard: Vec<Pronunciation>,
    url: String,
    region: String,
    symbol: String,
}

/// One step of a lookup: either a clip to fetch, or the end.
pub enum Step<'a> {
    Fetch(Pending<'a>),
    Done(Result<LookupResult, LookupFailure>),
}

impl<'a> Pending<'a> {
    #[verifier::type_invariant]
    spec fn sound(self) -> bool {
        &&& layout(self.entry@) == Ok::<Layout, LookupFailure>(self.parts@)
        &&& self.heard.len() < self.parts@.phonetics.len()
        &&& phonetic(self.parts@.phonetics[self.heard.len() as int]) == (Phonetic::Voiced {
            url: self.url@,
            region: self.region@,
            symbol: self.symbol@,
        })
    }

    /// The entry under lookup.
    pub closed spec fn entry(self) -> JsonTree {
        self.entry@
    }

    /// The pronunciations gathered so far.
    pub closed spec fn heard(self) -> Seq<PronunciationView> {
        self.heard.deep_view()
    }

    /// The address of the awaited clip.
    pub closed spec fn awaited(self) -> Seq<char> {
        self.url@
    }

    /// The address to fetch the awaited clip from: the one that the entry
    /// names in the phonetics element after those already heard.
    pub fn url(&self) -> (url: &str)
        ensures
            url@ == self.awaited(),
            layout(self.entry()) is Ok,
            due(layout(self.entry()).unwrap(), self.heard()) == (Progress::Awaiting {
                url: self.awaited(),
                heard: self.heard(),
            }),
    {
        proof {
            use_type_invariant(self);
        }
        self.url.as_str()
    }

    /// Continues the lookup with the outcome of the awaited fetch: the clip,
    /// or `None` where the fetch failed.
    pub fn resume(self, audio: Option<Vec<u8>>) -> (step: Step<'a>)
        ensures
            step.progress() == answered(self.entry(), self.heard(), clip_of(audio)),
            step matches Step::Fetch(next) ==> next.entry() == self.entry(),
    {
        proof {
            use_type_invariant(&self);
        }
        let Pending { entry, parts, heard, url: _, region, symbol } = self;
        let clip = match audio {
            Some(clip) => clip,
            None => return Step::Done(Err(LookupFailure::Network)),
        };
        let ghost before = heard.deep_view();
        let mut heard = heard;
        let said = Pronunciation { region, symbol, audio: clip };
        heard.push(said);
        assert(heard.deep_view() =~= before.push(said@));
        advance(entry, parts, heard)
    }
}

impl<'a> Step<'a> {
    /// Where the lookup stands at this step.
    pub open spec fn progress(self) -> Progress {
        match self {
            Step::Fetch(pending) => Progress::Awaiting {
                url: pending.awaited(),
                heard: pending.heard(),
            },
            Step::Done(result) => Progress::Finished(ending(result)),
        }
    }
}

/// The outcome of a fetch, as contracts see it.
pub open spec fn clip_of(audio: Option<Vec<u8>>) -> Option<Seq<u8>> {
    match audio {
        Some(clip) => Some(clip@),
        None => None,
    }
}

/// Reads on from the element of `phonetics` that follows those which gave
/// `heard`.
fn advance<'a>(entry: &'a RawEntry, parts: Parts<'a>, heard: Vec<Pronunciation>) -> (step: Step<
    'a,
>)
    requires
        layout(entry@) == Ok::<Layout, LookupFailure>(parts@),
    ensures
        step.progress() == due(parts@, heard.deep_view()),
        step matches Step::Fetch(next) ==> next.entry() == entry@,
{
    if heard.len() >= parts.phonetics.len() {
        return Step::Done(close(parts.meanings, heard));
    }
    match read_phonetic(&parts.phonetics[heard.len()]) {
        Cue::Malformed => Step::Done(Err(LookupFailure::Shape)),
        Cue::Silent => Step::Done(close(parts.meanings, heard)),
        Cue::Voiced { url, region, symbol } => Step::Fetch(
            Pending { entry, parts, heard, url, region, symbol },
        ),
    }
}

/// Starts a lookup: reads `entry` up to the first clip that it names.
pub fn begin<'a>(entry: &'a RawEntry) -> (step: Step<'a>)
    ensures
        step.progress() == opening(entry@),
        step matches Step::Fetch(next) ==> next.entry() == entry@,
{
    match locate(entry) {
        Ok(parts) => {
            let heard: Vec<Pronunciation> = Vec::new();
            assert(heard.deep_view() =~= Seq::<PronunciationView>::empty());
            advance(entry, parts, heard)
        },
        Err(failure) => Step::Done(Err(failure)),
    }
}

/// `fetch_audio` can answer a request for the clip at `url` with `outcome`.
pub open spec fn may_answer<F: Fn(&str) -> Option<Vec<u8>>>(
    fetch_audio: F,
    url: Seq<char>,
    outcome: Option<Seq<u8>>,
) -> bool {
    exists|address: &str, audio: Option<Vec<u8>>|
        address@ == url && #[trigger] call_ensures(fetch_audio, (address,), audio) && clip_of(
            audio,
        ) == outcome
}

/// `fetched` lists what `fetch_audio` answered when asked, in order, for the
/// clips of the leading elements of the entry's phonetics.
pub open spec fn fetched_by<F: Fn(&str) -> Option<Vec<u8>>>(
    fetch_audio: F,
    entry: JsonTree,
    fetched: Seq<Option<Seq<u8>>>,
) -> bool {
    match layout(entry) {
        Ok(parts) => {
            &&& fetched.len() <= parts.phonetics.len()
            &&& forall|i: int|
                0 <= i < fetched.len() ==> {
                    &&& phonetic(parts.phonetics[i]) matches Phonetic::Voiced { url, .. }
                    &&& may_answer(fetch_audio, url, #[trigger] fetched[i])
                }
        },
        Err(_) => fetched.len() == 0,
    }
}

/// `ended` is a way for the lookup of `entry` to end when its clips are
/// fetched by `fetch_audio`.
///
/// There is a list of outcomes, each an answer of `fetch_audio` for the clip
/// that the lookup awaited when the outcome came in; the list is complete, in
/// that the lookup is over after its last outcome and not before; and `ended`
/// is what [`normalized`] states for that list.
pub open spec fn normalizes<F: Fn(&str) -> Option<Vec<u8>>>(
    fetch_audio: F,
    entry: JsonTree,
    ended: Result<LookupResultView, LookupFailure>,
) -> bool {
    exists|fetched: Seq<Option<Seq<u8>>>|
        {
            &&& #[trigger] fetched_by(fetch_audio, entry, fetched)
            &&& all_awaited(entry, fetched)
            &&& progress_after(entry, fetched) is Finished
            &&& ended == normalized(entry, fetched)
        }
}

/// Normalises `entry`, fetching each audio clip through `fetch_audio`, which
/// returns `None` where a fetch fails.
///
/// Clips are fetched one at a time, in the order of the document, each before
/// the next element is read; after a failure nothing more is fetched. The
/// result is what [`normalized`] states for the outcomes of these fetches,
/// none of which is missing: the lookup fails with `Network` only where
/// `fetch_audio` returned `None`.
pub fn normalize<F: Fn(&str) -> Option<Vec<u8>>>(entry: &RawEntry, fetch_audio: F) -> (result:
    Result<LookupResult, LookupFailure>)
    requires
        forall|address: &str| call_requires(fetch_audio, (address,)),
    ensures
        normalizes(fetch_audio, entry@, ending(result)),
{
    let ghost mut fetched: Seq<Option<Seq<u8>>> = Seq::empty();
    let mut step = begin(entry);
    loop
        invariant
            forall|address: &str| call_requires(fetch_audio, (address,)),
            all_awaited(entry@, fetched),
            forall|i: int|
                0 <= i < fetched.len() ==> {
                    &&& progress_after(entry@, #[trigger] fetched.take(i)) matches Progress::Awaiting {
                        url,
                        ..
                    }
                    &&& may_answer(fetch_audio, url, fetched[i])
                },
            step.progress() == progress_after(entry@, fetched),
            step matches Step::Fetch(pending) ==> pending.entry() == entry@,
        decreases
                match (layout(entry@), step.progress()) {
                    (Ok(parts), Progress::Awaiting { heard, .. }) => 1 + parts.phonetics.len()
                        - heard.len(),
                    _ => 0,
                },
    {
        match step {
            Step::Done(result) => {
                proof {
                    lemma_steps_normalize(entry@, fetched);
                    lemma_fetched_by(fetch_audio, entry@, fetched);
                }
                return result;
            },
            Step::Fetch(pending) => {
                let audio = fetch_audio(pending.url());
                proof {
                    let sooner = fetched;
                    fetched = sooner.push(clip_of(audio));
                    assert(sooner.take(sooner.len() as int) =~= sooner);
                    assert(fetched.drop_last() =~= sooner);
                    assert forall|i: int| 0 <= i < fetched.len() implies {
                        &&& progress_after(entry@, #[trigger] fetched.take(i)) matches Progress::Awaiting {
                            url,
                            ..
                        }
                        &&& may_answer(fetch_audio, url, fetched[i])
                    } by {
                        assert(fetched.take(i) =~= sooner.take(i));
                    }
                    assert forall|i: int| 0 <= i <= sooner.len() implies progress_after(
                        entry@,
                        #[trigger] fetched.take(i),
                    ) is Awaiting by {}
                    lemma_awaiting(entry@, fetched, sooner.len());
                }
                step = pending.resume(audio);
            },
        }
    }
}

/// Outcomes that came in one by one, each while the lookup awaited the clip
/// that `fetch_audio` was asked for, are outcomes [`fetched_by`] it.
proof fn lemma_fetched_by<F: Fn(&str) -> Option<Vec<u8>>>(
    fetch_audio: F,
    entry: JsonTree,
    fetched: Seq<Option<Seq<u8>>>,
)
    requires
        forall|i: int|
            0 <= i < fetched.len() ==> {
                &&& progress_after(entry, #[trigger] fetched.take(i)) matches Progress::Awaiting {
                    url,
                    ..
                }
                &&& may_answer(fetch_audio, url, fetched[i])
            },
    ensures
        fetched_by(fetch_audio, entry, fetched),
{
    if fetched.len() > 0 {
        let last = (fetched.len() - 1) as nat;
        assert forall|j: int| 0 <= j <= last implies progress_after(
            entry,
            #[trigger] fetched.take(j),
        ) is Awaiting by {}
        lemma_awaiting(entry, fetched, last);
        let parts = layout(entry).unwrap();
        assert forall|i: int| 0 <= i < fetched.len() implies {
            &&& phonetic(parts.phonetics[i]) matches Phonetic::Voiced { url, .. }
            &&& may_answer(fetch_audio, url, #[trigger] fetched[i])
        } by {
            assert forall|j: int| 0 <= j <= i implies progress_after(
                entry,
                #[trigger] fetched.take(j),
            ) is Awaiting by {}
            lemma_awaiting(entry, fetched, i as nat);
        }
    }
}

} // verus!
