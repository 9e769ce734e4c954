use typ::mode::{Mode, QuoteLength, Seconds, WordCount};
use typ::{Error, Language, MonkeyType, Quote, TestPhase, TestState};

const T0: u64 = 1_700_000_000_000;

fn store(words: &[&str], quotes: Option<Vec<Quote>>) -> MonkeyType {
    let words = words.iter().map(|w| w.to_string()).collect();
    MonkeyType::new(Language::English, Some(words), quotes).unwrap()
}

fn words_mode(count: usize) -> Mode {
    Mode::Words { word_count: WordCount::Custom(count), punctuation: false, numbers: false }
}

fn session_on_ab() -> TestState {
    let mut state = TestState::new(store(&["ab"], None)).mode(words_mode(1));
    state.new_test().unwrap();
    state
}

#[test]
fn new_session_is_idle() {
    let mut state = TestState::new(store(&["ab"], None));
    assert_eq!(state.phase(), TestPhase::Idle);
    assert_eq!(state.test_text(), "");
    state.type_char('a');
    state.backspace();
    assert!(state.typed_text().is_empty());
    assert!(state.statistics().chars.is_empty());
}

#[test]
fn new_test_twice_clears_history() {
    let mut state = TestState::new(store(&["one", "two", "three"], None)).mode(words_mode(5));
    for _ in 0..2 {
        state.new_test().unwrap();
        assert_eq!(state.phase(), TestPhase::Ready);
        assert!(state.typed_text().is_empty());
        assert!(state.statistics().chars.is_empty());
        assert_eq!(state.statistics().started, None);
        assert_eq!(state.statistics().ended, None);
        let words: Vec<&str> = state.test_text().split(' ').collect();
        assert_eq!(words.len(), 5);
        assert!(words.iter().all(|w| ["one", "two", "three"].contains(w)));
        state.type_char_at('x', T0);
        state.type_char_at('y', T0 + 10);
        assert!(state.was_typed_wrong(0));
    }
    state.new_test().unwrap();
    assert!(!state.was_typed_wrong(0));
}

#[test]
fn typing_the_text_correctly() {
    let mut state = session_on_ab();
    assert_eq!(state.test_text(), "ab");
    state.type_char_at('a', T0);
    assert_eq!(state.phase(), TestPhase::InProgress);
    state.type_char_at('b', T0 + 100);
    assert_eq!(state.phase(), TestPhase::Completed);
    assert_eq!(state.statistics().accuracy(), 10000);
    assert_eq!(format!("{:.1}", state.statistics().accuracy() as f64 / 100.0), "100.0");
    assert!(!state.was_typed_wrong(0));
    assert!(!state.was_typed_wrong(1));
}

#[test]
fn corrections_keep_the_mistake() {
    let mut state = session_on_ab();
    state.type_char_at('x', T0);
    assert!(state.was_typed_wrong(0));
    state.backspace();
    assert!(state.typed_text().is_empty());
    state.type_char_at('a', T0 + 100);
    assert!(state.was_typed_wrong(0));
    assert!(!state.was_typed_wrong(1));
    assert_eq!(state.typed_text(), &vec!['a']);
    // the history keeps both keystrokes at position 0
    assert_eq!(state.statistics().chars.len(), 2);
    assert_eq!(state.statistics().chars[0].index, 0);
    assert_eq!(state.statistics().chars[1].index, 0);
}

#[test]
fn completion_freezes_the_attempt() {
    let mut state = session_on_ab();
    state.type_char_at('a', T0);
    assert_eq!(state.statistics().ended, None);
    state.type_char_at('b', T0 + 100);
    assert_eq!(state.phase(), TestPhase::Completed);
    assert_eq!(state.statistics().ended, Some(T0 + 100));
    state.type_char_at('c', T0 + 200);
    state.type_char('d');
    state.backspace();
    assert_eq!(state.typed_text(), &vec!['a', 'b']);
    assert_eq!(state.statistics().ended, Some(T0 + 100));
    assert_eq!(state.statistics().chars.len(), 2);
    state.new_test().unwrap();
    assert_eq!(state.phase(), TestPhase::Ready);
}

#[test]
fn backspace_at_the_start_does_nothing() {
    let mut state = session_on_ab();
    state.backspace();
    assert_eq!(state.phase(), TestPhase::Ready);
    assert!(state.typed_text().is_empty());
}

#[test]
fn clock_read_keystrokes() {
    let mut state = session_on_ab();
    state.type_char('a');
    state.type_char('b');
    assert_eq!(state.phase(), TestPhase::Completed);
    assert!(state.statistics().started.is_some());
    assert!(state.statistics().ended.is_some());
}

#[test]
fn empty_corpus_gives_no_words() {
    let mut state = TestState::new(store(&[], None)).mode(words_mode(3));
    match state.new_test() {
        Err(Error::NoWordsForLanguage(Language::English)) => {}
        other => panic!("unexpected {:?}", other),
    }
    assert_eq!(state.phase(), TestPhase::Idle);
    let mut state = TestState::new(store(&[], None));
    assert!(matches!(state.new_test(), Err(Error::NoWordsForLanguage(Language::English))));
}

#[test]
fn failed_new_test_keeps_the_attempt() {
    let mut state = session_on_ab();
    state.type_char_at('a', T0);
    state.set_mode(Mode::Quote { lengths: vec![QuoteLength::Short] });
    assert!(matches!(state.new_test(), Err(Error::NoQuotesForLanguage(Language::English))));
    assert_eq!(state.test_text(), "ab");
    assert_eq!(state.typed_text(), &vec!['a']);
    assert_eq!(state.statistics().chars.len(), 1);
    assert_eq!(state.phase(), TestPhase::InProgress);
}

#[test]
fn quote_mode() {
    let quotes = vec![Quote::new("a short one".to_string(), 11), Quote::new("x".repeat(400), 400)];
    let mut state = TestState::new(store(&["w"], Some(quotes)));
    state.set_mode(Mode::Quote { lengths: vec![QuoteLength::Short] });
    state.new_test().unwrap();
    assert_eq!(state.test_text(), "a short one");
    state.set_mode(Mode::Quote { lengths: vec![QuoteLength::Medium, QuoteLength::Thicc] });
    match state.new_test() {
        Err(Error::NoQuoteWithLengths(lengths)) => {
            assert_eq!(lengths, vec![QuoteLength::Medium, QuoteLength::Thicc])
        }
        other => panic!("unexpected {:?}", other),
    }
    assert_eq!(state.test_text(), "a short one");
}

#[test]
fn time_mode_offers_four_words_a_second() {
    let mut state = TestState::new(store(&["w"], None));
    state.set_mode(Mode::Time(Seconds::S15));
    state.new_test().unwrap();
    assert_eq!(state.test_text().split(' ').count(), 60);
}

#[test]
fn language_change_waits_for_its_corpus() {
    let mut state = session_on_ab();
    state.set_language(Language::German);
    assert_eq!(state.needs_corpus(), Some(Language::German));
    assert!(matches!(state.new_test(), Err(Error::CorpusNotFound(Language::German))));
    assert_eq!(state.test_text(), "ab");
    let german = MonkeyType::new(Language::German, Some(vec!["cd".to_string()]), None).unwrap();
    state.provide_corpus(german);
    assert_eq!(state.needs_corpus(), None);
    assert_eq!(state.test_text(), "ab");
    state.new_test().unwrap();
    assert_eq!(state.test_text(), "cd");
    assert_eq!(state.monkey().language, Language::German);
}

#[test]
fn builder_language() {
    let state = TestState::new(store(&["ab"], None)).language(Language::French);
    assert_eq!(state.needs_corpus(), Some(Language::French));
}
