//! What holds of every lookup.

use crate::json::JsonTree;
use crate::normalize::{fetched_by, may_answer, normalizes};
use crate::outcome::{ExampleView, LookupFailure, LookupResultView};
use crate::reading::{
    all_awaited, all_examples_of, all_meanings_ok, answered, closing, due, examples_of,
    fetches_succeed, heard_after, layout, normalized, opening, phonetic, progress_after,
    related_words_of, sense_of, spoken, stands_at, synonyms_of, voiced, Phonetic, Progress,
};
use vstd::prelude::*;
use vstd::seq_lib::lemma_flatten_concat;

verus! {

/// Reading pronunciations from the start comes to the same as reading on
/// after the first `count` elements, where these ask for clips that are all
/// fetched.
pub proof fn lemma_spoken_reads_on(
    phonetics: Seq<JsonTree>,
    fetched: Seq<Option<Seq<u8>>>,
    count: nat,
)
    requires
        fetches_succeed(phonetics, fetched, count),
    ensures
        spoken(phonetics, fetched, Seq::empty()) == spoken(
            phonetics,
            fetched,
            heard_after(phonetics, fetched, count),
        ),
    decreases count,
{
    if count == 0 {
        assert(heard_after(phonetics, fetched, 0) =~= Seq::empty());
    } else {
        let before = (count - 1) as nat;
        lemma_spoken_reads_on(phonetics, fetched, before);
        let heard = heard_after(phonetics, fetched, before);
        let said = voiced(phonetics[before as int], fetched[before as int].unwrap());
        assert(heard.push(said) =~= heard_after(phonetics, fetched, count));
    }
}

/// While a lookup awaits clips, the outcomes so far are all successes, and
/// the lookup stands where the pronunciations gathered from them put it.
pub proof fn lemma_awaiting(entry: JsonTree, fetched: Seq<Option<Seq<u8>>>, count: nat)
    requires
        count <= fetched.len(),
        forall|i: int|
            0 <= i <= count ==> progress_after(entry, #[trigger] fetched.take(i)) is Awaiting,
    ensures
        layout(entry) is Ok,
        count < layout(entry).unwrap().phonetics.len(),
        fetches_succeed(layout(entry).unwrap().phonetics, fetched, count),
        phonetic(layout(entry).unwrap().phonetics[count as int]) is Voiced,
        progress_after(entry, fetched.take(count as int)) == due(
            layout(entry).unwrap(),
            heard_after(layout(entry).unwrap().phonetics, fetched, count),
        ),
    decreases count,
{
    let now = fetched.take(count as int);
    if count == 0 {
        assert(heard_after(layout(entry).unwrap().phonetics, fetched, 0) =~= Seq::empty());
    } else {
        let before = (count - 1) as nat;
        lemma_awaiting(entry, fetched, before);
        let parts = layout(entry).unwrap();
        let heard = heard_after(parts.phonetics, fetched, before);
        assert(now.drop_last() =~= fetched.take(before as int));
        assert(progress_after(entry, now) == answered(entry, heard, fetched[before as int]));
        let said = voiced(parts.phonetics[before as int], fetched[before as int].unwrap());
        assert(heard.push(said) =~= heard_after(parts.phonetics, fetched, count));
    }
}

/// Driving a lookup step by step gives what [`normalized`] states: if each
/// outcome in `fetched` came in while the lookup awaited a clip, and the
/// lookup is over after the last of them, it ended as `normalized` says.
pub proof fn lemma_steps_normalize(entry: JsonTree, fetched: Seq<Option<Seq<u8>>>)
    requires
        all_awaited(entry, fetched),
        progress_after(entry, fetched) is Finished,
    ensures
        progress_after(entry, fetched) == Progress::Finished(normalized(entry, fetched)),
{
    if fetched.len() > 0 {
        let before = (fetched.len() - 1) as nat;
        assert forall|i: int| 0 <= i <= before implies progress_after(
            entry,
            #[trigger] fetched.take(i),
        ) is Awaiting by {}
        lemma_awaiting(entry, fetched, before);
        let parts = layout(entry).unwrap();
        let heard = heard_after(parts.phonetics, fetched, before);
        assert(fetched.drop_last() =~= fetched.take(before as int));
        assert(progress_after(entry, fetched) == answered(entry, heard, fetched.last()));
        lemma_spoken_reads_on(parts.phonetics, fetched, before);
        if fetched.last() is Some {
            let said = voiced(parts.phonetics[before as int], fetched[before as int].unwrap());
            assert(heard.push(said) =~= heard_after(parts.phonetics, fetched, fetched.len()));
            lemma_spoken_reads_on(parts.phonetics, fetched, fetched.len());
        }
    }
}

/// In a concatenation, element `j` of list `i` stands behind all elements of
/// the lists before `i`.
proof fn lemma_flatten_places<A>(lists: Seq<Seq<A>>, i: int, j: int)
    requires
        0 <= i < lists.len(),
        0 <= j < lists[i].len(),
    ensures
        lists.take(i).flatten().len() + j < lists.flatten().len(),
        lists.flatten()[lists.take(i).flatten().len() + j] == lists[i][j],
{
    let before = lists.take(i);
    let after = lists.skip(i + 1);
    assert(lists =~= before.push(lists[i]) + after);
    lemma_flatten_concat(before.push(lists[i]), after);
    before.lemma_flatten_push(lists[i]);
}

/// A well-formed entry is kept whole and in order.
///
/// Where every phonetics element names a clip, every clip is fetched and
/// every meaning is well formed, the lookup succeeds. Its result has one
/// pronunciation for each phonetics element and one sense for each meaning,
/// at the same position. Its related words and examples are those of the
/// meanings, concatenated in the order of the meanings: each stands behind
/// all those of earlier meanings, in the place it has within its own.
pub proof fn lemma_well_formed_entry_is_kept(entry: JsonTree, fetched: Seq<Option<Seq<u8>>>)
    requires
        layout(entry) is Ok,
        fetches_succeed(
            layout(entry).unwrap().phonetics,
            fetched,
            layout(entry).unwrap().phonetics.len(),
        ),
        layout(entry).unwrap().meanings.items() is Some,
        all_meanings_ok(layout(entry).unwrap().meanings.items().unwrap()),
    ensures
        normalized(entry, fetched) is Ok,
        ({
            let phonetics = layout(entry).unwrap().phonetics;
            let meanings = layout(entry).unwrap().meanings.items().unwrap();
            let result = normalized(entry, fetched).unwrap();
            &&& result.pronunciations.len() == phonetics.len()
            &&& forall|i: int|
                0 <= i < phonetics.len() ==> {
                    &&& phonetic(phonetics[i]) matches Phonetic::Voiced { region, symbol, .. }
                    &&& (#[trigger] result.pronunciations[i]).region == region
                    &&& result.pronunciations[i].symbol == symbol
                    &&& result.pronunciations[i].audio == fetched[i].unwrap()
                }
            &&& result.senses.len() == meanings.len()
            &&& forall|i: int|
                0 <= i < meanings.len() ==> #[trigger] result.senses[i] == sense_of(meanings[i])
            &&& result.related_words == related_words_of(meanings)
            &&& forall|i: int, j: int|
                #![trigger synonyms_of(meanings[i])[j]]
                0 <= i < meanings.len() && 0 <= j < synonyms_of(meanings[i]).len() ==> {
                    stands_at(
                        result.related_words,
                        related_words_of(meanings.take(i)).len() + j,
                        synonyms_of(meanings[i])[j],
                    )
                }
            &&& result.examples == all_examples_of(meanings)
            &&& forall|i: int, j: int|
                #![trigger examples_of(meanings[i])[j]]
                0 <= i < meanings.len() && 0 <= j < examples_of(meanings[i]).len() ==> {
                    stands_at(
                        result.examples,
                        all_examples_of(meanings.take(i)).len() + j,
                        examples_of(meanings[i])[j],
                    )
                }
        }),
{
    let phonetics = layout(entry).unwrap().phonetics;
    let meanings = layout(entry).unwrap().meanings.items().unwrap();
    lemma_spoken_reads_on(phonetics, fetched, phonetics.len());
    let words = meanings.map_values(|meaning: JsonTree| synonyms_of(meaning));
    let shown = meanings.map_values(|meaning: JsonTree| examples_of(meaning));
    assert forall|i: int, j: int|
        #![trigger synonyms_of(meanings[i])[j]]
        0 <= i < meanings.len() && 0 <= j < synonyms_of(meanings[i]).len() implies {
        stands_at(
            related_words_of(meanings),
            related_words_of(meanings.take(i)).len() + j,
            synonyms_of(meanings[i])[j],
        )
    } by {
        assert(meanings.take(i).map_values(|meaning: JsonTree| synonyms_of(meaning))
            =~= words.take(i));
        lemma_flatten_places(words, i, j);
    }
    assert forall|i: int, j: int|
        #![trigger examples_of(meanings[i])[j]]
        0 <= i < meanings.len() && 0 <= j < examples_of(meanings[i]).len() implies {
        stands_at(
            all_examples_of(meanings),
            all_examples_of(meanings.take(i)).len() + j,
            examples_of(meanings[i])[j],
        )
    } by {
        assert(meanings.take(i).map_values(|meaning: JsonTree| examples_of(meaning))
            =~= shown.take(i));
        lemma_flatten_places(shown, i, j);
    }
}

/// An empty `audio` in the first phonetics element leaves the result without
/// pronunciations, whatever the later elements hold: no clip is asked for,
/// and the lookup ends as its meanings alone decide.
pub proof fn lemma_silent_first_element(entry: JsonTree, fetched: Seq<Option<Seq<u8>>>)
    requires
        layout(entry) is Ok,
        layout(entry).unwrap().phonetics.len() > 0,
        layout(entry).unwrap().phonetics[0].member("audio"@) == Some(
            JsonTree::Text(Seq::empty()),
        ),
    ensures
        opening(entry) is Finished,
        normalized(entry, fetched) == closing(layout(entry).unwrap().meanings, Seq::empty()),
        normalized(entry, fetched) matches Ok(result) ==> result.pronunciations.len() == 0,
{
}

/// A meaning without `synonyms` fails the lookup; it is never read as a
/// meaning without related words. Unless a fetch failed before the meanings
/// were read, the failure is `Shape`.
pub proof fn lemma_missing_synonyms_fail(
    entry: JsonTree,
    fetched: Seq<Option<Seq<u8>>>,
    which: int,
)
    requires
        layout(entry) is Ok,
        layout(entry).unwrap().meanings.items() is Some,
        0 <= which < layout(entry).unwrap().meanings.items().unwrap().len(),
        layout(entry).unwrap().meanings.items().unwrap()[which].member("synonyms"@) is None,
    ensures
        normalized(entry, fetched) is Err,
        spoken(layout(entry).unwrap().phonetics, fetched, Seq::empty()) is Ok ==> normalized(
            entry,
            fetched,
        ) == Err::<LookupResultView, LookupFailure>(LookupFailure::Shape),
{
}

/// An audio address of one to five characters fails the lookup with `Shape`
/// as soon as its element is read, that is, where the clips of all elements
/// before it were fetched.
pub proof fn lemma_short_address_fails(
    entry: JsonTree,
    fetched: Seq<Option<Seq<u8>>>,
    which: nat,
    url: Seq<char>,
)
    requires
        layout(entry) is Ok,
        fetches_succeed(layout(entry).unwrap().phonetics, fetched, which),
        which < layout(entry).unwrap().phonetics.len(),
        layout(entry).unwrap().phonetics[which as int].member("audio"@) == Some(
            JsonTree::Text(url),
        ),
        0 < url.len() < 6,
    ensures
        normalized(entry, fetched) == Err::<LookupResultView, LookupFailure>(LookupFailure::Shape),
{
    lemma_spoken_reads_on(layout(entry).unwrap().phonetics, fetched, which);
}

/// A clip that cannot be fetched fails the lookup with `Network`: the element
/// that names it never becomes a pronunciation without audio.
pub proof fn lemma_failed_fetch_fails(
    entry: JsonTree,
    fetched: Seq<Option<Seq<u8>>>,
    which: nat,
)
    requires
        layout(entry) is Ok,
        fetches_succeed(layout(entry).unwrap().phonetics, fetched, which),
        which < layout(entry).unwrap().phonetics.len(),
        phonetic(layout(entry).unwrap().phonetics[which as int]) is Voiced,
        which < fetched.len() ==> fetched[which as int] is None,
    ensures
        normalized(entry, fetched) == Err::<LookupResultView, LookupFailure>(
            LookupFailure::Network,
        ),
{
    lemma_spoken_reads_on(layout(entry).unwrap().phonetics, fetched, which);
}

/// An empty top-level array fails the lookup with `EmptyResult`, before any
/// fetch; it never gives a result without content.
pub proof fn lemma_empty_array_fails(entry: JsonTree, fetched: Seq<Option<Seq<u8>>>)
    requires
        entry.items() == Some(Seq::<JsonTree>::empty()),
    ensures
        opening(entry) == Progress::Finished(Err(LookupFailure::EmptyResult)),
        normalized(entry, fetched) == Err::<LookupResultView, LookupFailure>(
            LookupFailure::EmptyResult,
        ),
{
}

/// What holds of every element of every list holds of every element of
/// their concatenation.
proof fn lemma_flatten_keeps<A>(lists: Seq<Seq<A>>, holds: spec_fn(A) -> bool)
    requires
        forall|i: int, j: int|
            0 <= i < lists.len() && 0 <= j < lists[i].len() ==> holds(#[trigger] lists[i][j]),
    ensures
        forall|k: int| 0 <= k < lists.flatten().len() ==> holds(#[trigger] lists.flatten()[k]),
    decreases lists.len(),
{
    if lists.len() > 0 {
        let rest = lists.drop_first();
        assert forall|i: int, j: int| 0 <= i < rest.len() && 0 <= j < rest[i].len() implies holds(
            #[trigger] rest[i][j],
        ) by {
            assert(rest[i][j] == lists[i + 1][j]);
        }
        lemma_flatten_keeps(rest, holds);
        assert forall|k: int| 0 <= k < lists.flatten().len() implies holds(
            #[trigger] lists.flatten()[k],
        ) by {
            if k < lists.first().len() {
                assert(lists.flatten()[k] == lists[0][k]);
            } else {
                assert(lists.flatten()[k] == rest.flatten()[k - lists.first().len()]);
            }
        }
    }
}

/// No example of any result has a target sentence.
pub proof fn lemma_examples_have_no_target(entry: JsonTree, fetched: Seq<Option<Seq<u8>>>)
    ensures
        normalized(entry, fetched) matches Ok(result) ==> forall|i: int|
            0 <= i < result.examples.len() ==> (#[trigger] result.examples[i]).target.len() == 0,
{
    if normalized(entry, fetched) is Ok {
        let meanings = layout(entry).unwrap().meanings.items().unwrap();
        let lists = meanings.map_values(|meaning: JsonTree| examples_of(meaning));
        let bare = |example: ExampleView| example.target.len() == 0;
        assert forall|i: int, j: int| 0 <= i < lists.len() && 0 <= j < lists[i].len() implies bare(
            #[trigger] lists[i][j],
        ) by {}
        lemma_flatten_keeps(lists, bare);
        assert(normalized(entry, fetched).unwrap().examples == lists.flatten());
    }
}

/// After clips that were all fetched, a lookup stands where the
/// pronunciations gathered from them put it.
pub proof fn lemma_progress_after_successes(
    entry: JsonTree,
    fetched: Seq<Option<Seq<u8>>>,
    count: nat,
)
    requires
        layout(entry) is Ok,
        fetches_succeed(layout(entry).unwrap().phonetics, fetched, count),
    ensures
        progress_after(entry, fetched.take(count as int)) == due(
            layout(entry).unwrap(),
            heard_after(layout(entry).unwrap().phonetics, fetched, count),
        ),
    decreases count,
{
    let parts = layout(entry).unwrap();
    let now = fetched.take(count as int);
    if count == 0 {
        assert(heard_after(parts.phonetics, fetched, 0) =~= Seq::empty());
    } else {
        let before = (count - 1) as nat;
        lemma_progress_after_successes(entry, fetched, before);
        let heard = heard_after(parts.phonetics, fetched, before);
        assert(now.drop_last() =~= fetched.take(before as int));
        assert(phonetic(parts.phonetics[before as int]) is Voiced);
        assert(progress_after(entry, now) == answered(entry, heard, fetched[before as int]));
        let said = voiced(parts.phonetics[before as int], fetched[before as int].unwrap());
        assert(heard.push(said) =~= heard_after(parts.phonetics, fetched, count));
    }
}

/// `fetch_audio` never reports a failure: whatever it returns is a clip.
pub open spec fn always_answers<F: Fn(&str) -> Option<Vec<u8>>>(fetch_audio: F) -> bool {
    forall|address: &str, audio: Option<Vec<u8>>|
        call_ensures(fetch_audio, (address,), audio) ==> audio is Some
}

/// Outcomes fetched by a fetcher that always answers are all clips.
proof fn lemma_all_fetched<F: Fn(&str) -> Option<Vec<u8>>>(
    fetch_audio: F,
    entry: JsonTree,
    fetched: Seq<Option<Seq<u8>>>,
)
    requires
        always_answers(fetch_audio),
        fetched_by(fetch_audio, entry, fetched),
        layout(entry) is Ok,
    ensures
        fetches_succeed(layout(entry).unwrap().phonetics, fetched, fetched.len()),
{
    let parts = layout(entry).unwrap();
    assert forall|i: int| 0 <= i < fetched.len() implies phonetic(
        #[trigger] parts.phonetics[i],
    ) is Voiced && fetched[i] is Some by {
        let url = phonetic(parts.phonetics[i])->url;
        assert(may_answer(fetch_audio, url, fetched[i]));
    }
}

/// With a fetcher that always answers, no lookup through
/// [`crate::normalize::normalize`] fails with `Network`.
pub proof fn lemma_sure_fetcher_never_fails<F: Fn(&str) -> Option<Vec<u8>>>(
    fetch_audio: F,
    entry: JsonTree,
    ended: Result<LookupResultView, LookupFailure>,
)
    requires
        normalizes(fetch_audio, entry, ended),
        always_answers(fetch_audio),
    ensures
        ended != Err::<LookupResultView, LookupFailure>(LookupFailure::Network),
{
    let fetched = choose|fetched: Seq<Option<Seq<u8>>>|
        {
            &&& #[trigger] fetched_by(fetch_audio, entry, fetched)
            &&& all_awaited(entry, fetched)
            &&& progress_after(entry, fetched) is Finished
            &&& ended == normalized(entry, fetched)
        };
    lemma_steps_normalize(entry, fetched);
    if layout(entry) is Ok {
        lemma_all_fetched(fetch_audio, entry, fetched);
        lemma_progress_after_successes(entry, fetched, fetched.len());
        assert(fetched.take(fetched.len() as int) =~= fetched);
    }
}

/// Through [`crate::normalize::normalize`], a well-formed entry is kept
/// whole and in order whenever the fetcher always answers.
///
/// Where every phonetics element names a clip and every meaning is well
/// formed, the lookup succeeds. Its result has one pronunciation for each
/// phonetics element, at the same position, with the region and symbol of
/// that element and a clip that the fetcher can answer with for its address.
/// Senses, related words and examples are those of the meanings, in order.
pub proof fn lemma_sure_fetcher_keeps_entry<F: Fn(&str) -> Option<Vec<u8>>>(
    fetch_audio: F,
    entry: JsonTree,
    ended: Result<LookupResultView, LookupFailure>,
)
    requires
        normalizes(fetch_audio, entry, ended),
        always_answers(fetch_audio),
        layout(entry) is Ok,
        forall|i: int|
            0 <= i < layout(entry).unwrap().phonetics.len() ==> phonetic(
                #[trigger] layout(entry).unwrap().phonetics[i],
            ) is Voiced,
        layout(entry).unwrap().meanings.items() is Some,
        all_meanings_ok(layout(entry).unwrap().meanings.items().unwrap()),
    ensures
        ended is Ok,
        ({
            let phonetics = layout(entry).unwrap().phonetics;
            let meanings = layout(entry).unwrap().meanings.items().unwrap();
            let result = ended.unwrap();
            &&& result.pronunciations.len() == phonetics.len()
            &&& forall|i: int|
                0 <= i < phonetics.len() ==> {
                    &&& phonetic(phonetics[i]) matches Phonetic::Voiced { url, region, symbol }
                    &&& (#[trigger] result.pronunciations[i]).region == region
                    &&& result.pronunciations[i].symbol == symbol
                    &&& may_answer(fetch_audio, url, Some(result.pronunciations[i].audio))
                }
            &&& result.senses.len() == meanings.len()
            &&& forall|i: int|
                0 <= i < meanings.len() ==> #[trigger] result.senses[i] == sense_of(meanings[i])
            &&& result.related_words == related_words_of(meanings)
            &&& result.examples == all_examples_of(meanings)
        }),
{
    let fetched = choose|fetched: Seq<Option<Seq<u8>>>|
        {
            &&& #[trigger] fetched_by(fetch_audio, entry, fetched)
            &&& all_awaited(entry, fetched)
            &&& progress_after(entry, fetched) is Finished
            &&& ended == normalized(entry, fetched)
        };
    let phonetics = layout(entry).unwrap().phonetics;
    lemma_all_fetched(fetch_audio, entry, fetched);
    lemma_progress_after_successes(entry, fetched, fetched.len());
    assert(fetched.take(fetched.len() as int) =~= fetched);
    assert(fetched.len() == phonetics.len());
    lemma_well_formed_entry_is_kept(entry, fetched);
    let result = ended.unwrap();
    assert forall|i: int| 0 <= i < phonetics.len() implies {
        &&& phonetic(phonetics[i]) matches Phonetic::Voiced { url, region, symbol }
        &&& (#[trigger] result.pronunciations[i]).region == region
        &&& result.pronunciations[i].symbol == symbol
        &&& may_answer(fetch_audio, url, Some(result.pronunciations[i].audio))
    } by {
        assert(fetched[i] == Some(result.pronunciations[i].audio));
    }
}

} // verus!
