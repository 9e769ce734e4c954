use typ::mode::{QuoteLength, Seconds, WordCount};
use typ::punctuation::{apply, get_punctuation, PunctuationKind, PunctuationLanguage};
use typ::tab::Tab;
use typ::{Error, Language, MonkeyType, Quote, WordPick};

fn strings(words: &[&str]) -> Vec<String> {
    words.iter().map(|w| w.to_string()).collect()
}

fn store(words: &[&str], quotes: Option<Vec<Quote>>) -> MonkeyType {
    MonkeyType::new(Language::English, Some(strings(words)), quotes).unwrap()
}

#[test]
fn bucket_boundaries() {
    assert_eq!(QuoteLength::from(0), QuoteLength::Short);
    assert_eq!(QuoteLength::from(100), QuoteLength::Short);
    assert_eq!(QuoteLength::from(101), QuoteLength::Medium);
    assert_eq!(QuoteLength::from(300), QuoteLength::Medium);
    assert_eq!(QuoteLength::from(301), QuoteLength::Long);
    assert_eq!(QuoteLength::from(600), QuoteLength::Long);
    assert_eq!(QuoteLength::from(601), QuoteLength::Thicc);
    let quote = Quote::new("q".to_string(), 250);
    assert_eq!(quote.bucket(), QuoteLength::Medium);
    assert_eq!(quote.length(), 250);
    assert_eq!(quote.text(), "q");
}

#[test]
fn bucket_names() {
    assert_eq!(QuoteLength::All.as_str(), "all");
    assert_eq!(QuoteLength::Thicc.as_str(), "thicc");
    assert_eq!(QuoteLength::Medium.debug_name(), format!("{:?}", QuoteLength::Medium));
}

#[test]
fn random_words_sample_with_replacement() {
    let corpus = ["alpha", "beta", "gamma"];
    let monkey = store(&corpus, None);
    let words = monkey.random_words(10, false, false).unwrap();
    assert_eq!(words.len(), 10);
    assert!(words.iter().all(|w| corpus.contains(&w.as_str())));
}

#[test]
fn random_words_on_an_empty_corpus() {
    let monkey = store(&[], None);
    assert!(monkey.random_words(10, false, false).is_none());
    assert!(monkey.random_words(0, true, true).is_none());
    assert!(monkey.words_for_picks(&vec![WordPick::Corpus(0)], false).is_none());
}

#[test]
fn random_words_with_numbers_and_punctuation() {
    let monkey = store(&["alpha", "beta"], None);
    let words = monkey.random_words(200, true, true).unwrap();
    assert_eq!(words.len(), 200);
    for w in &words {
        let bare: String = w.chars().filter(|c| c.is_alphanumeric()).collect();
        let is_number = !bare.is_empty() && bare.chars().all(|c| c.is_ascii_digit());
        assert!(bare == "alpha" || bare == "beta" || (is_number && bare.parse::<u32>().unwrap() < 10000));
    }
}

#[test]
fn words_for_picks_exact() {
    let monkey = store(&["x", "y", "z"], None);
    let picks = vec![WordPick::Corpus(4), WordPick::Number(42), WordPick::Corpus(0)];
    assert_eq!(monkey.words_for_picks(&picks, false).unwrap(), strings(&["y", "42", "x"]));
    // 30% of three words rounds to one: the number takes its mark first
    assert_eq!(monkey.words_for_picks(&picks, true).unwrap(), strings(&["y", "42%", "x"]));
    let picks = vec![WordPick::Number(0), WordPick::Number(1234567)];
    assert_eq!(monkey.words_for_picks(&picks, false).unwrap(), strings(&["0", "1234567"]));
}

#[test]
fn quote_selection() {
    let quotes = vec![
        Quote::new("short".to_string(), 5),
        Quote::new("long".to_string(), 450),
        Quote::new("another short".to_string(), 13),
    ];
    let monkey = store(&["w"], Some(quotes));
    let short = vec![QuoteLength::Short];
    assert_eq!(monkey.quote_for_draw(&short, 0).unwrap().text(), "short");
    assert_eq!(monkey.quote_for_draw(&short, 1).unwrap().text(), "another short");
    assert_eq!(monkey.quote_for_draw(&short, 2).unwrap().text(), "short");
    let all = vec![QuoteLength::All];
    assert_eq!(monkey.quote_for_draw(&all, 1).unwrap().text(), "long");
    let long = vec![QuoteLength::Medium, QuoteLength::Long];
    assert_eq!(monkey.random_quote(&long).unwrap().text(), "long");
    let picked = monkey.random_quote(&short).unwrap();
    assert_eq!(picked.bucket(), QuoteLength::Short);
    match monkey.random_quote(&vec![QuoteLength::Thicc]) {
        Err(Error::NoQuoteWithLengths(l)) => assert_eq!(l, vec![QuoteLength::Thicc]),
        other => panic!("unexpected {:?}", other.map(|q| q.text().clone())),
    }
}

#[test]
fn no_quotes_for_language() {
    let monkey = store(&["w"], None);
    assert!(matches!(
        monkey.random_quote(&vec![QuoteLength::All]),
        Err(Error::NoQuotesForLanguage(Language::English))
    ));
    let monkey = store(&["w"], Some(Vec::new()));
    assert!(matches!(
        monkey.random_quote(&vec![QuoteLength::All]),
        Err(Error::NoQuoteWithLengths(_))
    ));
}

#[test]
fn corpus_loading() {
    assert!(matches!(
        MonkeyType::new(Language::Thai, None, None),
        Err(Error::CorpusNotFound(Language::Thai))
    ));
    let mut monkey = store(&["a"], None);
    assert!(matches!(
        monkey.set_language(Language::Thai, None, Some(Vec::new())),
        Err(Error::CorpusNotFound(Language::Thai))
    ));
    assert_eq!(monkey.language, Language::English);
    assert_eq!(monkey.words, strings(&["a"]));
    monkey.set_language(Language::Thai, Some(strings(&["b"])), None).unwrap();
    assert_eq!(monkey.language, Language::Thai);
    assert_eq!(monkey.words, strings(&["b"]));
}

#[test]
fn punctuation_tables() {
    assert_eq!(
        get_punctuation(PunctuationKind::EndOfWord, PunctuationLanguage::Latin),
        vec!['.', ',', ';', ':', '?', '!', '-']
    );
    assert_eq!(
        get_punctuation(PunctuationKind::AroundWord, PunctuationLanguage::Khmer),
        vec!['(', ')']
    );
    assert_eq!(
        get_punctuation(PunctuationKind::OtherKinds, PunctuationLanguage::Korean),
        vec!['〜']
    );
    assert!(get_punctuation(PunctuationKind::AfterNumber, PunctuationLanguage::Greek).is_empty());
    assert!(get_punctuation(PunctuationKind::Upcase, PunctuationLanguage::Latin).is_empty());
    assert!(get_punctuation(PunctuationKind::EndOfWord, PunctuationLanguage::Unmapped).is_empty());
}

#[test]
fn language_scripts() {
    assert_eq!(PunctuationLanguage::from(Language::English), PunctuationLanguage::Latin);
    assert_eq!(PunctuationLanguage::from(Language::Hindi1k), PunctuationLanguage::Devanagari);
    assert_eq!(PunctuationLanguage::from(Language::Yiddish), PunctuationLanguage::Hebrew);
    assert_eq!(PunctuationLanguage::from(Language::MyanmarBurmese), PunctuationLanguage::Burmese);
    assert_eq!(PunctuationLanguage::from(Language::PersianRomanized), PunctuationLanguage::Latin);
}

#[test]
fn language_names() {
    assert_eq!(Language::English1k.name(), "english_1k");
    assert_eq!(Language::EsperantoHSistemo10k.name(), "esperanto_h_sistemo_10k");
    assert_eq!(Language::default(), Language::English);
}

#[test]
fn apply_end_of_word() {
    let words = strings(&["a", "b", "c", "d"]);
    let r = apply(words, Language::English, vec![PunctuationKind::EndOfWord], 50);
    assert_eq!(r, strings(&["a.", "b,", "c", "d"]));
}

#[test]
fn apply_in_priority_order() {
    let words = strings(&["12", "x", "y"]);
    let kinds = vec![PunctuationKind::EndOfWord, PunctuationKind::AfterNumber];
    let r = apply(words, Language::English, kinds, 100);
    assert_eq!(r, strings(&["12%", "x,", "y;"]));
}

#[test]
fn apply_each_kind() {
    let one = |kind| apply(strings(&["w"]), Language::English, vec![kind], 100);
    assert_eq!(one(PunctuationKind::AroundWord), strings(&["'w'"]));
    assert_eq!(one(PunctuationKind::BetweenWordsWithSpace), strings(&["w –"]));
    assert_eq!(one(PunctuationKind::BetweenWordsWithoutSpace), strings(&["w-"]));
    assert_eq!(one(PunctuationKind::OtherKinds), strings(&["@w"]));
    assert_eq!(one(PunctuationKind::Upcase), strings(&["w"]));
    assert_eq!(one(PunctuationKind::AfterNumber), strings(&["w"]));
}

#[test]
fn apply_pairs_marks_around_words() {
    let words = strings(&["a", "b", "c", "d"]);
    let r = apply(words.clone(), Language::English, vec![PunctuationKind::AroundWord], 100);
    assert_eq!(r, strings(&["'a'", "\"b\"", "(c)", "[d]"]));
    let r = apply(words, Language::Greek, vec![PunctuationKind::AroundWord], 100);
    assert_eq!(r, strings(&["«a»", "“b”", "«c»", "“d”"]));
    let r = apply(strings(&["w"]), Language::Amharic, vec![PunctuationKind::AroundWord], 100);
    assert_eq!(r, strings(&["፨w፨"]));
}

#[test]
fn apply_rounding_and_clamping() {
    let words = strings(&["a", "b", "c"]);
    // half of three rounds up to two
    let r = apply(words.clone(), Language::Greek, vec![PunctuationKind::EndOfWord], 50);
    assert_eq!(r, strings(&["a.", "b,", "c"]));
    let r = apply(words.clone(), Language::English, vec![PunctuationKind::EndOfWord], 250);
    assert_eq!(r, strings(&["a.", "b,", "c;"]));
    let r = apply(words.clone(), Language::English, vec![PunctuationKind::EndOfWord], 0);
    assert_eq!(r, words);
    let r = apply(Vec::new(), Language::English, vec![PunctuationKind::EndOfWord], 100);
    assert!(r.is_empty());
}

#[test]
fn apply_without_marks_for_the_script() {
    let words = strings(&["a", "b"]);
    let r = apply(words.clone(), Language::Korean, vec![PunctuationKind::AroundWord], 100);
    assert_eq!(r, words);
    let r = apply(words, Language::Korean, vec![PunctuationKind::AroundWord, PunctuationKind::OtherKinds], 100);
    assert_eq!(r, strings(&["〜a", "〜b"]));
}

#[test]
fn mode_values() {
    assert_eq!(Seconds::S15.as_usize(), 15);
    assert_eq!(Seconds::S120.as_usize(), 120);
    assert_eq!(Seconds::Custom(7).as_usize(), 7);
    assert_eq!(WordCount::W25.as_usize(), 25);
    assert_eq!(WordCount::Custom(3).as_usize(), 3);
}

#[test]
fn error_messages() {
    assert_eq!(
        Error::NoWordsForLanguage(Language::English).as_string(),
        "There are no words for the language: english"
    );
    assert_eq!(
        Error::NoQuoteWithLengths(vec![QuoteLength::Short, QuoteLength::Long]).as_string(),
        "There are no quotes with lengths: [Short, Long]"
    );
    assert_eq!(
        Error::NoQuoteWithLengths(Vec::new()).as_string(),
        "There are no quotes with lengths: []"
    );
    assert_eq!(
        Error::NoQuotesForLanguage(Language::German1k).as_string(),
        "There are no quotes for the language: german_1k"
    );
    assert_eq!(
        Error::CorpusNotFound(Language::Thai).as_string(),
        "There is no corpus for the language: thai"
    );
    assert_eq!(Error::Generic("disk".to_string()).as_string(), "disk");
}

#[test]
fn tabs() {
    assert_eq!(Tab::from_number(0), Some(Tab::Main));
    assert_eq!(Tab::from_number(3), Some(Tab::Help));
    assert_eq!(Tab::from_number(4), None);
    assert_eq!(Tab::Settings.to_string(), "Settings");
}
