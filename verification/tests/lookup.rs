use std::cell::RefCell;

use lexicon::json::RawEntry;
use lexicon::normalize::{begin, normalize, Step};
use lexicon::outcome::{
    ExampleSentence, LookupFailure, LookupResult, Pronunciation, Sense,
};
use lexicon::region::extract_region;
use lexicon::request::LookupRequest;

fn entry(text: &str) -> RawEntry {
    RawEntry::parse(text.as_bytes()).unwrap()
}

fn clip(_url: &str) -> Option<Vec<u8>> {
    Some(vec![1, 2, 3])
}

fn no_fetch(url: &str) -> Option<Vec<u8>> {
    panic!("unexpected fetch of {}", url)
}

fn words(list: &[&str]) -> Vec<String> {
    list.iter().map(|word| word.to_string()).collect()
}

const TEST_ENTRY: &str = r#"[{"phonetics":[{"text":"/test/","audio":"https://x/test-uk.mp3"}],"meanings":[{"partOfSpeech":"noun","definitions":[{"definition":"a trial","example":"this is a test"}],"synonyms":["trial","exam"]}]}]"#;

fn test_result() -> LookupResult {
    LookupResult {
        pronunciations: vec![Pronunciation {
            region: "uk".to_string(),
            symbol: "/test/".to_string(),
            audio: vec![1, 2, 3],
        }],
        senses: vec![Sense {
            part_of_speech: "noun".to_string(),
            definitions: words(&["a trial"]),
        }],
        related_words: words(&["trial", "exam"]),
        examples: vec![ExampleSentence {
            source: "this is a test".to_string(),
            target: String::new(),
        }],
    }
}

#[test]
fn end_to_end_scenario() {
    let result = normalize(&entry(TEST_ENTRY), clip);
    assert_eq!(result, Ok(test_result()));
}

#[test]
fn end_to_end_scenario_step_by_step() {
    let document = entry(TEST_ENTRY);
    let pending = match begin(&document) {
        Step::Fetch(pending) => pending,
        Step::Done(result) => panic!("ended early: {:?}", result),
    };
    assert_eq!(pending.url(), "https://x/test-uk.mp3");
    match pending.resume(Some(vec![1, 2, 3])) {
        Step::Done(result) => assert_eq!(result, Ok(test_result())),
        Step::Fetch(next) => panic!("unexpected fetch of {}", next.url()),
    }
}

#[test]
fn well_formed_entry_keeps_order_and_count() {
    let document = entry(
        r#"[{"phonetics":[
              {"text":"/a/","audio":"https://h/w-us.mp3"},
              {"audio":"https://h/w-au.mp3"},
              {"text":"/c/","audio":"https://h/w-uk.mp3"}],
            "meanings":[
              {"partOfSpeech":"noun",
               "definitions":[{"definition":"n1","example":"e1"},{"definition":"n2"}],
               "synonyms":["s1","s2"]},
              {"partOfSpeech":"verb",
               "definitions":[{"definition":"v1"},{"definition":"v2","example":"e2"},{"definition":"v3","example":"e3"}],
               "synonyms":["s3","s1"]}]}]"#,
    );
    let asked = RefCell::new(Vec::new());
    let result = normalize(&document, |url: &str| {
        asked.borrow_mut().push(url.to_string());
        Some(url.as_bytes()[8..].to_vec())
    })
    .unwrap();
    assert_eq!(
        asked.into_inner(),
        words(&["https://h/w-us.mp3", "https://h/w-au.mp3", "https://h/w-uk.mp3"])
    );
    assert_eq!(
        result.pronunciations,
        vec![
            Pronunciation {
                region: "us".to_string(),
                symbol: "/a/".to_string(),
                audio: b"h/w-us.mp3".to_vec(),
            },
            Pronunciation {
                region: "au".to_string(),
                symbol: String::new(),
                audio: b"h/w-au.mp3".to_vec(),
            },
            Pronunciation {
                region: "uk".to_string(),
                symbol: "/c/".to_string(),
                audio: b"h/w-uk.mp3".to_vec(),
            },
        ]
    );
    assert_eq!(
        result.senses,
        vec![
            Sense { part_of_speech: "noun".to_string(), definitions: words(&["n1", "n2"]) },
            Sense { part_of_speech: "verb".to_string(), definitions: words(&["v1", "v2", "v3"]) },
        ]
    );
    assert_eq!(result.related_words, words(&["s1", "s2", "s3", "s1"]));
    let sources: Vec<String> = result.examples.iter().map(|e| e.source.clone()).collect();
    assert_eq!(sources, words(&["e1", "e2", "e3"]));
    assert!(result.examples.iter().all(|e| e.target.is_empty()));
}

#[test]
fn empty_audio_first_gives_no_pronunciations() {
    let document = entry(
        r#"[{"phonetics":[{"audio":""},{"text":"/a/","audio":"https://h/w-us.mp3"}],
            "meanings":[]}]"#,
    );
    let result = normalize(&document, no_fetch).unwrap();
    assert!(result.pronunciations.is_empty());
    assert!(matches!(begin(&document), Step::Done(Ok(_))));
}

#[test]
fn empty_audio_hides_later_faults() {
    let document = entry(
        r#"[{"phonetics":[{"audio":"","text":7},{"audio":1},{}],"meanings":[]}]"#,
    );
    let result = normalize(&document, no_fetch);
    assert_eq!(
        result,
        Ok(LookupResult {
            pronunciations: vec![],
            senses: vec![],
            related_words: vec![],
            examples: vec![],
        })
    );
}

#[test]
fn empty_audio_ends_reading_after_earlier_clips() {
    let document = entry(
        r#"[{"phonetics":[{"audio":"https://h/w-us.mp3"},{"audio":""},{"audio":"https://h/w-uk.mp3"}],
            "meanings":[]}]"#,
    );
    let result = normalize(&document, clip).unwrap();
    assert_eq!(result.pronunciations.len(), 1);
    assert_eq!(result.pronunciations[0].region, "us");
}

#[test]
fn missing_synonyms_fails() {
    let document = entry(
        r#"[{"phonetics":[],"meanings":[
              {"partOfSpeech":"noun","definitions":[],"synonyms":[]},
              {"partOfSpeech":"verb","definitions":[]}]}]"#,
    );
    assert_eq!(normalize(&document, no_fetch), Err(LookupFailure::Shape));
}

#[test]
fn synonym_that_is_no_string_fails() {
    let document = entry(
        r#"[{"phonetics":[],"meanings":[
              {"partOfSpeech":"noun","definitions":[],"synonyms":["a",1]}]}]"#,
    );
    assert_eq!(normalize(&document, no_fetch), Err(LookupFailure::Shape));
}

#[test]
fn synonyms_that_are_no_array_fail() {
    let document = entry(
        r#"[{"phonetics":[],"meanings":[
              {"partOfSpeech":"noun","definitions":[],"synonyms":"a"}]}]"#,
    );
    assert_eq!(normalize(&document, no_fetch), Err(LookupFailure::Shape));
}

#[test]
fn region_is_read_from_the_address() {
    assert_eq!(extract_region("https://host/media/word-us.mp3"), Some("us".to_string()));
    assert_eq!(extract_region("https://x/test-uk.mp3"), Some("uk".to_string()));
    assert_eq!(extract_region("us.mp3"), Some("us".to_string()));
    assert_eq!(extract_region("abcdefg"), Some("bc".to_string()));
}

#[test]
fn short_address_has_no_region() {
    assert_eq!(extract_region("s.mp3"), None);
    assert_eq!(extract_region("a"), None);
    assert_eq!(extract_region(""), None);
}

#[test]
fn region_counts_characters() {
    assert_eq!(extract_region("h/\u{e9}t\u{e9}-fr.mp3"), Some("fr".to_string()));
    assert_eq!(extract_region("\u{e9}\u{e8}.\u{f4}g\u{e0}"), Some("\u{e9}\u{e8}".to_string()));
    assert_eq!(extract_region("\u{e9}\u{e9}\u{e9}"), None);
}

#[test]
fn short_address_fails_the_lookup() {
    let document = entry(r#"[{"phonetics":[{"audio":"a.mp3"}],"meanings":[]}]"#);
    assert_eq!(normalize(&document, no_fetch), Err(LookupFailure::Shape));
}

#[test]
fn examples_accumulate_across_meanings() {
    let document = entry(
        r#"[{"phonetics":[],"meanings":[
              {"partOfSpeech":"noun","definitions":[{"definition":"d1","example":"first"}],"synonyms":[]},
              {"partOfSpeech":"verb","definitions":[{"definition":"d2","example":"second"}],"synonyms":[]}]}]"#,
    );
    let result = normalize(&document, no_fetch).unwrap();
    assert_eq!(
        result.examples,
        vec![
            ExampleSentence { source: "first".to_string(), target: String::new() },
            ExampleSentence { source: "second".to_string(), target: String::new() },
        ]
    );
}

#[test]
fn failed_fetch_fails_the_lookup() {
    let document = entry(TEST_ENTRY);
    assert_eq!(normalize(&document, |_: &str| None), Err(LookupFailure::Network));
    match begin(&document) {
        Step::Fetch(pending) => {
            assert!(matches!(pending.resume(None), Step::Done(Err(LookupFailure::Network))))
        }
        Step::Done(result) => panic!("ended early: {:?}", result),
    }
}

#[test]
fn nothing_is_fetched_after_a_failed_fetch() {
    let document = entry(
        r#"[{"phonetics":[{"audio":"https://h/w-us.mp3"},{"audio":"https://h/w-au.mp3"},{"audio":"https://h/w-uk.mp3"}],
            "meanings":[]}]"#,
    );
    let asked = RefCell::new(Vec::new());
    let result = normalize(&document, |url: &str| {
        asked.borrow_mut().push(url.to_string());
        if url.ends_with("au.mp3") {
            None
        } else {
            Some(vec![0])
        }
    });
    assert_eq!(result, Err(LookupFailure::Network));
    assert_eq!(asked.into_inner(), words(&["https://h/w-us.mp3", "https://h/w-au.mp3"]));
}

#[test]
fn failed_fetch_comes_before_later_faults() {
    let document = entry(
        r#"[{"phonetics":[{"audio":"https://h/w-us.mp3"},{"audio":5}],"meanings":7}]"#,
    );
    assert_eq!(normalize(&document, |_: &str| None), Err(LookupFailure::Network));
    assert_eq!(normalize(&document, clip), Err(LookupFailure::Shape));
}

#[test]
fn clips_are_fetched_before_a_later_fault_is_met() {
    let document = entry(
        r#"[{"phonetics":[{"audio":"https://h/w-us.mp3"},{"text":"/x/"}],"meanings":[]}]"#,
    );
    let asked = RefCell::new(Vec::new());
    let result = normalize(&document, |url: &str| {
        asked.borrow_mut().push(url.to_string());
        Some(vec![9])
    });
    assert_eq!(result, Err(LookupFailure::Shape));
    assert_eq!(asked.into_inner(), words(&["https://h/w-us.mp3"]));
}

#[test]
fn empty_top_level_array_fails() {
    let document = entry("[]");
    assert_eq!(normalize(&document, no_fetch), Err(LookupFailure::EmptyResult));
    assert!(matches!(begin(&document), Step::Done(Err(LookupFailure::EmptyResult))));
}

#[test]
fn only_the_first_entry_is_read() {
    let text = format!("{},7,{{}}]", &TEST_ENTRY[..TEST_ENTRY.len() - 1]);
    assert_eq!(normalize(&entry(&text), clip), Ok(test_result()));
}

#[test]
fn top_level_must_be_an_array() {
    for text in [r#"{"phonetics":[],"meanings":[]}"#, "null", "3", r#""word""#, "true"] {
        assert_eq!(normalize(&entry(text), no_fetch), Err(LookupFailure::Shape));
    }
}

#[test]
fn first_entry_must_be_an_object_with_both_parts() {
    for text in [
        "[7]",
        "[[]]",
        "[{}]",
        r#"[{"phonetics":[]}]"#,
        r#"[{"meanings":[]}]"#,
        r#"[{"phonetics":{},"meanings":[]}]"#,
        r#"[{"phonetics":[],"meanings":{}}]"#,
        r#"[{"phonetics":[],"meanings":null}]"#,
    ] {
        assert_eq!(normalize(&entry(text), no_fetch), Err(LookupFailure::Shape), "{}", text);
    }
}

#[test]
fn entry_without_content_gives_an_empty_result() {
    let result = normalize(&entry(r#"[{"phonetics":[],"meanings":[]}]"#), no_fetch).unwrap();
    assert!(result.pronunciations.is_empty());
    assert!(result.senses.is_empty());
    assert!(result.related_words.is_empty());
    assert!(result.examples.is_empty());
}

#[test]
fn malformed_phonetics_fail() {
    for item in [
        r#"{}"#,
        r#"{"text":"/a/"}"#,
        r#"{"audio":null}"#,
        r#"{"audio":5}"#,
        r#"{"audio":["https://h/w-us.mp3"]}"#,
        r#"{"audio":"https://h/w-us.mp3","text":null}"#,
        r#"{"audio":"https://h/w-us.mp3","text":5}"#,
        r#"7"#,
        r#""https://h/w-us.mp3""#,
    ] {
        let text = format!(r#"[{{"phonetics":[{}],"meanings":[]}}]"#, item);
        assert_eq!(normalize(&entry(&text), no_fetch), Err(LookupFailure::Shape), "{}", item);
    }
}

#[test]
fn missing_text_gives_an_empty_symbol() {
    let document = entry(r#"[{"phonetics":[{"audio":"https://h/w-us.mp3"}],"meanings":[]}]"#);
    let result = normalize(&document, clip).unwrap();
    assert_eq!(result.pronunciations[0].symbol, "");
    assert_eq!(result.pronunciations[0].audio, vec![1, 2, 3]);
}

#[test]
fn malformed_meanings_fail() {
    for item in [
        r#"7"#,
        r#"{}"#,
        r#"{"definitions":[],"synonyms":[]}"#,
        r#"{"partOfSpeech":1,"definitions":[],"synonyms":[]}"#,
        r#"{"partOfSpeech":"noun","synonyms":[]}"#,
        r#"{"partOfSpeech":"noun","definitions":{},"synonyms":[]}"#,
        r#"{"partOfSpeech":"noun","definitions":[{}],"synonyms":[]}"#,
        r#"{"partOfSpeech":"noun","definitions":[7],"synonyms":[]}"#,
        r#"{"partOfSpeech":"noun","definitions":[{"definition":7}],"synonyms":[]}"#,
        r#"{"partOfSpeech":"noun","definitions":[{"example":"e"}],"synonyms":[]}"#,
        r#"{"partOfSpeech":"noun","definitions":[{"definition":"d","example":null}],"synonyms":[]}"#,
        r#"{"partOfSpeech":"noun","definitions":[{"definition":"d","example":3}],"synonyms":[]}"#,
        r#"{"partOfSpeech":"noun","definitions":[{"definition":"d"}],"synonyms":[null]}"#,
    ] {
        let text = format!(r#"[{{"phonetics":[],"meanings":[{}]}}]"#, item);
        assert_eq!(normalize(&entry(&text), no_fetch), Err(LookupFailure::Shape), "{}", item);
    }
}

#[test]
fn meanings_are_read_after_all_clips() {
    let document = entry(
        r#"[{"phonetics":[{"audio":"https://h/w-us.mp3"}],"meanings":[{"partOfSpeech":"noun"}]}]"#,
    );
    let asked = RefCell::new(0);
    let result = normalize(&document, |_: &str| {
        *asked.borrow_mut() += 1;
        Some(vec![])
    });
    assert_eq!(result, Err(LookupFailure::Shape));
    assert_eq!(asked.into_inner(), 1);
}

#[test]
fn empty_clip_is_kept() {
    let document = entry(r#"[{"phonetics":[{"audio":"https://h/w-us.mp3"}],"meanings":[]}]"#);
    let result = normalize(&document, |_: &str| Some(vec![])).unwrap();
    assert_eq!(result.pronunciations.len(), 1);
    assert!(result.pronunciations[0].audio.is_empty());
}

#[test]
fn body_that_is_no_json_counts_as_failed_fetch() {
    for body in ["", "[", "not json", r#"[{"phonetics":[]"#, "[] []", "[1,]"] {
        assert!(matches!(RawEntry::parse(body.as_bytes()), Err(LookupFailure::Network)), "{}", body);
    }
    assert!(matches!(RawEntry::parse(&[0xff, 0xfe]), Err(LookupFailure::Network)));
}

#[test]
fn parsed_document_is_the_one_in_the_body() {
    let noun = entry(
        r#"[{"phonetics":[],"meanings":[{"partOfSpeech":"noun","definitions":[],"synonyms":[]}]}]"#,
    );
    let verb = entry(
        r#"[{"phonetics":[],"meanings":[{"partOfSpeech":"verb","definitions":[],"synonyms":[]}]}]"#,
    );
    assert_eq!(normalize(&noun, no_fetch).unwrap().senses[0].part_of_speech, "noun");
    assert_eq!(normalize(&verb, no_fetch).unwrap().senses[0].part_of_speech, "verb");
}

#[test]
fn document_parsed_elsewhere_is_read_alike() {
    let value: serde_json::Value = serde_json::from_str(TEST_ENTRY).unwrap();
    let document = RawEntry::from_value(value);
    assert_eq!(normalize(&document, clip), Ok(test_result()));
}

#[test]
fn repeated_key_keeps_the_last_value() {
    let document = entry(
        r#"[{"phonetics":[],"meanings":7,"meanings":[{"partOfSpeech":"noun","definitions":[],"synonyms":["x"]}]}]"#,
    );
    assert_eq!(normalize(&document, no_fetch).unwrap().related_words, words(&["x"]));
}

#[test]
fn steps_can_be_driven_by_hand() {
    let document = entry(
        r#"[{"phonetics":[{"audio":"https://h/w-us.mp3"},{"text":"/b/","audio":"https://h/w-uk.mp3"}],
            "meanings":[{"partOfSpeech":"noun","definitions":[{"definition":"d"}],"synonyms":["s"]}]}]"#,
    );
    let first = match begin(&document) {
        Step::Fetch(pending) => pending,
        Step::Done(result) => panic!("ended early: {:?}", result),
    };
    assert_eq!(first.url(), "https://h/w-us.mp3");
    let second = match first.resume(Some(vec![1])) {
        Step::Fetch(pending) => pending,
        Step::Done(result) => panic!("ended early: {:?}", result),
    };
    assert_eq!(second.url(), "https://h/w-uk.mp3");
    let result = match second.resume(Some(vec![2, 2])) {
        Step::Done(result) => result.unwrap(),
        Step::Fetch(next) => panic!("unexpected fetch of {}", next.url()),
    };
    assert_eq!(
        result.pronunciations,
        vec![
            Pronunciation { region: "us".to_string(), symbol: String::new(), audio: vec![1] },
            Pronunciation { region: "uk".to_string(), symbol: "/b/".to_string(), audio: vec![2, 2] },
        ]
    );
    assert_eq!(result.related_words, words(&["s"]));
}

#[test]
fn every_failure_reads_the_same_to_the_host() {
    for failure in [LookupFailure::Network, LookupFailure::Shape, LookupFailure::EmptyResult] {
        assert_eq!(failure.message(), "Response Parse Error");
    }
}

#[test]
fn entry_address_names_language_and_word() {
    let request = LookupRequest::new("hello", "en");
    assert_eq!(request.entry_url(), "https://api.dictionaryapi.dev/api/v2/entries/en/hello");
    assert_eq!(
        LookupRequest::new("", "").entry_url(),
        "https://api.dictionaryapi.dev/api/v2/entries//"
    );
    assert_eq!(
        LookupRequest::new("ice cream", "en-GB").entry_url(),
        "https://api.dictionaryapi.dev/api/v2/entries/en-GB/ice cream"
    );
}

#[test]
fn clip_and_region_reach_the_result() {
    let document = entry(r#"[{"phonetics":[{"audio":"https://x/word-us.mp3"}],"meanings":[]}]"#);
    assert_eq!(
        normalize(&document, |_: &str| Some(vec![7])),
        Ok(LookupResult {
            pronunciations: vec![Pronunciation {
                region: "us".to_string(),
                symbol: String::new(),
                audio: vec![7],
            }],
            senses: vec![],
            related_words: vec![],
            examples: vec![],
        })
    );
}

#[test]
fn fetcher_that_always_answers_gives_one_pronunciation_per_element() {
    for count in 1..6usize {
        let items: Vec<String> = (0..count)
            .map(|i| format!(r#"{{"audio":"https://h/clip{}-us.mp3","text":"/s{}/"}}"#, i, i))
            .collect();
        let text = format!(r#"[{{"phonetics":[{}],"meanings":[]}}]"#, items.join(","));
        let result = normalize(&entry(&text), |url: &str| Some(url.as_bytes().to_vec())).unwrap();
        assert_eq!(result.pronunciations.len(), count);
        for (i, said) in result.pronunciations.iter().enumerate() {
            assert_eq!(said.region, "us");
            assert_eq!(said.symbol, format!("/s{}/", i));
            assert_eq!(said.audio, format!("https://h/clip{}-us.mp3", i).into_bytes());
        }
        assert!(result.senses.is_empty());
        assert!(result.related_words.is_empty());
        assert!(result.examples.is_empty());
    }
}
