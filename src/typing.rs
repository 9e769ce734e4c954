//! The test session: generates the text of an attempt from the current mode
//! and language, applies keystrokes and backspaces to it, and keeps the
//! statistics of the attempt.
use vstd::prelude::*;

use std::collections::HashSet;

use crate::error::Error;
use crate::language::Language;
use crate::mode::{Mode, Seconds};
use crate::monkeytype::{MonkeyType, WordPick, NUMBER_BOUND};
use crate::statistics::{mistyped, now_millis, TestStatistics};
use crate::strings::string_views;

verus! {

broadcast use vstd::std_specs::hash::group_hash_axioms;

/// Words a timed test offers per second of its duration.
pub const TIME_WORDS_PER_SECOND: usize = 4;

/// Where an attempt stands.
#[derive(Clone, Copy, Debug, PartialEq, Eq, Structural)]
pub enum TestPhase {
    /// No text has been generated yet.
    Idle,
    /// A text is there and nothing is typed.
    Ready,
    /// Part of the text is typed.
    InProgress,
    /// The whole text is typed.
    Completed,
}

/// The phase of an attempt with `typed` of `total` characters typed.
pub open spec fn phase_of(has_test: bool, typed: nat, total: nat) -> TestPhase {
    if !has_test {
        TestPhase::Idle
    } else if typed >= total {
        TestPhase::Completed
    } else if typed == 0 {
        TestPhase::Ready
    } else {
        TestPhase::InProgress
    }
}

/// Words separated by single spaces.
pub open spec fn joined(words: Seq<Seq<char>>) -> Seq<char>
    decreases words.len(),
{
    if words.len() == 0 {
        Seq::empty()
    } else if words.len() == 1 {
        words[0]
    } else {
        joined(words.drop_last()) + seq![' '] + words.last()
    }
}

/// Number of words of a timed test of `seconds` seconds.
pub open spec fn time_word_count(seconds: nat) -> nat {
    if seconds * TIME_WORDS_PER_SECOND <= usize::MAX {
        (seconds * TIME_WORDS_PER_SECOND) as nat
    } else {
        usize::MAX as nat
    }
}

fn join_words(words: &Vec<String>) -> (r: String)
    ensures
        r@ == joined(string_views(words@)),
{
    let mut s = String::new();
    let mut i: usize = 0;
    while i < words.len()
        invariant
            i <= words@.len(),
            s@ == joined(string_views(words@.subrange(0, i as int))),
        decreases words@.len() - i,
    {
        let ghost before = s@;
        if i > 0 {
            s.append(" ");
        }
        s.append(words[i].as_str());
        proof {
            reveal_strlit(" ");
            let next = string_views(words@.subrange(0, i + 1));
            assert(next.drop_last() =~= string_views(words@.subrange(0, i as int)));
            assert(next.last() == words@[i as int]@);
            if i == 0 {
                assert(before == Seq::<char>::empty());
                assert(next.len() == 1);
                assert(s@ =~= joined(next));
            } else {
                assert(s@ =~= before + seq![' '] + words@[i as int]@);
                assert(s@ =~= joined(next));
            }
        }
        i += 1;
    }
    assert(words@.subrange(0, words@.len() as int) =~= words@);
    s
}

/// One typing test after another over the corpus of one language.
pub struct TestState {
    language: Language,
    mode: Mode,
    test_text: String,
    typed_text: Vec<char>,
    was_typed_wrong: HashSet<usize>,
    monkey: MonkeyType,
    statistics: TestStatistics,
    has_test: bool,
}

impl TestState {
    /// Typed text never runs past the text; each mistyped position lies within
    /// the text and has an incorrect keystroke recorded at it; before a text
    /// exists there is neither text nor anything typed.
    pub closed spec fn wf(&self) -> bool {
        &&& self.typed_text@.len() <= self.test_text@.len()
        &&& forall|i: usize| #[trigger]
            self.was_typed_wrong@.contains(i) ==> i < self.test_text@.len() && mistyped(
                self.statistics.chars@,
                i,
            )
        &&& !self.has_test ==> self.typed_text@.len() == 0 && self.test_text@.len() == 0
    }

    /// The language of the next attempt.
    pub closed spec fn spec_language(&self) -> Language {
        self.language
    }

    /// The mode of the next attempt.
    pub closed spec fn spec_mode(&self) -> Mode {
        self.mode
    }

    /// The text of the current attempt.
    pub closed spec fn text(&self) -> Seq<char> {
        self.test_text@
    }

    /// What is typed of the current attempt.
    pub closed spec fn typed(&self) -> Seq<char> {
        self.typed_text@
    }

    /// The positions mistyped at least once during the current attempt.
    pub closed spec fn wrong(&self) -> Set<usize> {
        self.was_typed_wrong@
    }

    /// The corpus store in use.
    pub closed spec fn corpus(&self) -> MonkeyType {
        self.monkey
    }

    /// The keystroke history and times of the current attempt.
    pub closed spec fn stats(&self) -> TestStatistics {
        self.statistics
    }

    /// Whether a text has been generated.
    pub closed spec fn has_test(&self) -> bool {
        self.has_test
    }

    pub open spec fn spec_phase(&self) -> TestPhase {
        phase_of(self.has_test(), self.typed().len(), self.text().len())
    }

    /// In a well-formed session what is typed is never longer than the text,
    /// every mistyped position is a position of the text with an incorrect
    /// keystroke recorded at it, and an idle session has no text.
    pub proof fn lemma_wf_bounds(s: TestState)
        requires
            s.wf(),
        ensures
            s.typed().len() <= s.text().len(),
            forall|i: usize| #[trigger]
                s.wrong().contains(i) ==> i < s.text().len() && mistyped(s.stats().chars@, i),
            s.spec_phase() == TestPhase::Idle ==> s.text().len() == 0,
    {
    }

    /// The corpus in use is that of the language of the next attempt.
    pub open spec fn corpus_current(&self) -> bool {
        self.corpus().language == self.spec_language()
    }

    /// `text` is a text that the current mode can generate from the corpus.
    pub open spec fn can_generate(&self, text: Seq<char>) -> bool {
        let corpus = self.corpus();
        match self.spec_mode() {
            Mode::Time(seconds) => exists|picks: Seq<WordPick>|
                {
                    &&& picks.len() == time_word_count(seconds.value())
                    &&& forall|j: int| 0 <= j < picks.len() ==> #[trigger] picks[j] is Corpus
                    &&& text == joined(corpus.composed(picks, false))
                },
            Mode::Words { word_count, punctuation, numbers } => exists|picks: Seq<WordPick>|
                {
                    &&& picks.len() == word_count.value()
                    &&& forall|j: int|
                        0 <= j < picks.len() && !numbers ==> #[trigger] picks[j] is Corpus
                    &&& forall|j: int|
                        0 <= j < picks.len() && #[trigger] picks[j] is Number ==> picks[j]->Number_0
                            < NUMBER_BOUND
                    &&& text == joined(corpus.composed(picks, punctuation))
                },
            Mode::Quote { lengths } => exists|k: int|
                0 <= k < corpus.matches_for(lengths@).len() && text
                    == corpus.quotes->0@[#[trigger] corpus.matches_for(lengths@)[k]].spec_text(),
        }
    }

    /// The error the next `new_test` fails with, if any.
    pub open spec fn generation_error(&self) -> Option<Error> {
        let corpus = self.corpus();
        if !self.corpus_current() {
            Some(Error::CorpusNotFound(self.spec_language()))
        } else {
            match self.spec_mode() {
                Mode::Quote { lengths } => if corpus.quotes is None {
                    Some(Error::NoQuotesForLanguage(corpus.language))
                } else if corpus.matches_for(lengths@).len() == 0 {
                    Some(Error::NoQuoteWithLengths(lengths))
                } else {
                    None
                },
                _ => if corpus.word_list().len() == 0 {
                    Some(Error::NoWordsForLanguage(self.spec_language()))
                } else {
                    None
                },
            }
        }
    }

    /// `new` and `r` are what `new_test` makes of `old`: the error that
    /// `generation_error` names, with nothing changed; or success, with a text
    /// the mode can generate and a cleared history, mode, language and corpus
    /// kept.
    pub open spec fn new_test_outcome(old: TestState, new: TestState, r: Result<(), Error>) -> bool {
        &&& old.generation_error() is Some ==> r is Err && r->Err_0.same_as(
            &old.generation_error()->0,
        ) && new == old
        &&& old.generation_error() is None ==> r is Ok
        &&& r is Ok ==> {
            &&& old.can_generate(new.text())
            &&& new.has_test()
            &&& new.typed().len() == 0
            &&& new.wrong() == Set::<usize>::empty()
            &&& new.stats().is_fresh()
            &&& new.spec_mode() == old.spec_mode()
            &&& new.spec_language() == old.spec_language()
            &&& new.corpus() == old.corpus()
        }
    }

    /// `new` is `old` after a character `c` typed at time `now`: outside an
    /// attempt in progress nothing changes; otherwise the keystroke is checked
    /// against the next expected character, recorded, a mismatch marks its
    /// position for good, and typing the last character ends the attempt.
    pub open spec fn keystroke(old: TestState, new: TestState, c: char, now: u64) -> bool {
        let i = old.typed().len();
        if old.spec_phase() == TestPhase::Idle || old.spec_phase() == TestPhase::Completed {
            new == old
        } else {
            let expected = old.text()[i as int];
            &&& new.typed() == old.typed().push(c)
            &&& new.wrong() == if c == expected {
                old.wrong()
            } else {
                old.wrong().insert(i as usize)
            }
            &&& TestStatistics::records(&old.stats(), &new.stats(), i as usize, c, expected, now)
            &&& new.stats().ended == if i + 1 == old.text().len() {
                Some(now)
            } else {
                old.stats().ended
            }
            &&& new.text() == old.text()
            &&& new.has_test() == old.has_test()
            &&& new.spec_mode() == old.spec_mode()
            &&& new.spec_language() == old.spec_language()
            &&& new.corpus() == old.corpus()
        }
    }

    /// Starting a new attempt twice in a row, with mode and language unchanged,
    /// succeeds both times when the first succeeds, leaves no keystroke,
    /// mistyped position or time behind either time, and both texts come from
    /// the same mode over the same corpus.
    pub proof fn lemma_new_test_twice(
        s0: TestState,
        s1: TestState,
        r1: Result<(), Error>,
        s2: TestState,
        r2: Result<(), Error>,
    )
        requires
            s0.generation_error() is None,
            Self::new_test_outcome(s0, s1, r1),
            Self::new_test_outcome(s1, s2, r2),
        ensures
            r1 is Ok && r2 is Ok,
            s1.typed().len() == 0 && s1.wrong().is_empty() && s1.stats().is_fresh(),
            s2.typed().len() == 0 && s2.wrong().is_empty() && s2.stats().is_fresh(),
            s2.spec_mode() == s0.spec_mode() && s2.spec_language() == s0.spec_language(),
            s0.can_generate(s1.text()) && s0.can_generate(s2.text()),
    {
        assert(s1.spec_mode() == s0.spec_mode() && s1.corpus() == s0.corpus());
        assert(s1.generation_error() == s0.generation_error());
        assert(s1.can_generate(s2.text()) == s0.can_generate(s2.text()));
    }

    /// Typing the last character completes the attempt and stops the clock at
    /// that keystroke; once complete, further characters change nothing, so
    /// the end time stays.
    pub proof fn lemma_completion(
        s0: TestState,
        s1: TestState,
        c: char,
        t: u64,
        s2: TestState,
        c2: char,
        t2: u64,
    )
        requires
            s0.wf(),
            s0.typed().len() + 1 == s0.text().len(),
            Self::keystroke(s0, s1, c, t),
            Self::keystroke(s1, s2, c2, t2),
        ensures
            s1.spec_phase() == TestPhase::Completed,
            s1.stats().ended == Some(t),
            s2 == s1,
    {
        Self::lemma_wf_bounds(s0);
    }

    /// A session over `monkey`, in its language, with the default mode and no
    /// text yet.
    pub fn new(monkey: MonkeyType) -> (r: TestState)
        ensures
            r.wf(),
            r.spec_language() == monkey.language,
            r.spec_mode() == Mode::Time(Seconds::S60),
            r.corpus() == monkey,
            r.spec_phase() == TestPhase::Idle,
            r.text().len() == 0,
            r.wrong() == Set::<usize>::empty(),
            r.stats().is_fresh(),
    {
        let language = monkey.language;
        TestState {
            language,
            mode: Mode::default(),
            test_text: String::new(),
            typed_text: Vec::new(),
            was_typed_wrong: HashSet::new(),
            monkey,
            statistics: TestStatistics::new(),
            has_test: false,
        }
    }

    fn generate_text(&self) -> (r: Result<String, Error>)
        ensures
            self.generation_error() is Some ==> r is Err && r->Err_0.same_as(
                &self.generation_error()->0,
            ),
            self.generation_error() is None ==> r is Ok && self.can_generate(r->Ok_0@),
    {
        if self.monkey.language != self.language {
            return Err(Error::CorpusNotFound(self.language));
        }
        match &self.mode {
            Mode::Time(seconds) => {
                let secs = seconds.as_usize();
                let count = if secs <= usize::MAX / TIME_WORDS_PER_SECOND {
                    secs * TIME_WORDS_PER_SECOND
                } else {
                    usize::MAX
                };
                match self.monkey.random_words(count, false, false) {
                    Some(words) => {
                        let text = join_words(&words);
                        Ok(text)
                    },
                    None => Err(Error::NoWordsForLanguage(self.language)),
                }
            },
            Mode::Words { word_count, punctuation, numbers } => {
                match self.monkey.random_words(word_count.as_usize(), *punctuation, *numbers) {
                    Some(words) => {
                        let text = join_words(&words);
                        Ok(text)
                    },
                    None => Err(Error::NoWordsForLanguage(self.language)),
                }
            },
            Mode::Quote { lengths } => match self.monkey.random_quote(lengths) {
                Ok(quote) => Ok(quote.text().clone()),
                Err(e) => Err(e),
            },
        }
    }

    /// Starts a new attempt: generates a text for the current mode from the
    /// corpus and clears the keystrokes, the mistyped positions and the
    /// statistics. On failure nothing changes.
    pub fn new_test(&mut self) -> (r: Result<(), Error>)
        requires
            old(self).wf(),
        ensures
            final(self).wf(),
            Self::new_test_outcome(*old(self), *final(self), r),
    {
        match self.generate_text() {
            Ok(text) => {
                self.test_text = text;
                self.typed_text = Vec::new();
                self.was_typed_wrong = HashSet::new();
                self.statistics = TestStatistics::new();
                self.has_test = true;
                Ok(())
            },
            Err(e) => Err(e),
        }
    }

    /// Applies a character typed at time `now`.
    pub fn type_char_at(&mut self, c: char, now: u64)
        requires
            old(self).wf(),
        ensures
            final(self).wf(),
            Self::keystroke(*old(self), *final(self), c, now),
    {
        if !self.has_test {
            return;
        }
        let n = self.test_text.as_str().unicode_len();
        let i = self.typed_text.len();
        if i >= n {
            return;
        }
        let expected = self.test_text.as_str().get_char(i);
        let ghost old_chars = self.statistics.chars@;
        self.statistics.new_char_at(i, c, expected, now);
        proof {
            let chars = self.statistics.chars@;
            assert forall|j: usize| mistyped(old_chars, j) implies mistyped(chars, j) by {
                let k = choose|k: int|
                    0 <= k < old_chars.len() && #[trigger] old_chars[k].actual is Some
                        && old_chars[k].index == j;
                assert(chars[k] == old_chars[k]);
            }
            if c != expected {
                let k = old_chars.len() as int;
                assert(chars[k].actual is Some && chars[k].index == i);
                assert(mistyped(chars, i));
            }
        }
        if c != expected {
            self.was_typed_wrong.insert(i);
        }
        self.typed_text.push(c);
        if i + 1 == n {
            self.statistics.end_at(now);
        }
    }

    /// Applies a character typed now.
    pub fn type_char(&mut self, c: char)
        requires
            old(self).wf(),
        ensures
            final(self).wf(),
            exists|now: u64| Self::keystroke(*old(self), *final(self), c, now),
    {
        let now = now_millis();
        self.type_char_at(c, now);
    }

    /// Removes the last typed character while the attempt is in progress; the
    /// keystroke history and the mistyped positions stay.
    pub fn backspace(&mut self)
        requires
            old(self).wf(),
        ensures
            final(self).wf(),
            old(self).spec_phase() == TestPhase::InProgress ==> {
                &&& final(self).typed() == old(self).typed().drop_last()
                &&& final(self).wrong() == old(self).wrong()
                &&& final(self).stats() == old(self).stats()
                &&& final(self).text() == old(self).text()
                &&& final(self).has_test() == old(self).has_test()
                &&& final(self).spec_mode() == old(self).spec_mode()
                &&& final(self).spec_language() == old(self).spec_language()
                &&& final(self).corpus() == old(self).corpus()
            },
            old(self).spec_phase() != TestPhase::InProgress ==> *final(self) == *old(self),
    {
        if !self.has_test {
            return;
        }
        let n = self.test_text.as_str().unicode_len();
        let i = self.typed_text.len();
        if i > 0 && i < n {
            self.typed_text.pop();
        }
    }

    pub fn phase(&self) -> (r: TestPhase)
        requires
            self.wf(),
        ensures
            r == self.spec_phase(),
    {
        if !self.has_test {
            return TestPhase::Idle;
        }
        let n = self.test_text.as_str().unicode_len();
        let i = self.typed_text.len();
        if i >= n {
            TestPhase::Completed
        } else if i == 0 {
            TestPhase::Ready
        } else {
            TestPhase::InProgress
        }
    }

    /// The text of the current attempt.
    pub fn test_text(&self) -> (r: &String)
        ensures
            r@ == self.text(),
    {
        &self.test_text
    }

    /// The characters typed so far.
    pub fn typed_text(&self) -> (r: &Vec<char>)
        ensures
            r@ == self.typed(),
    {
        &self.typed_text
    }

    /// Whether position `i` was mistyped during the current attempt.
    pub fn was_typed_wrong(&self, i: usize) -> (r: bool)
        ensures
            r == self.wrong().contains(i),
    {
        self.was_typed_wrong.contains(&i)
    }

    /// The statistics of the current attempt.
    pub fn statistics(&self) -> (r: &TestStatistics)
        ensures
            *r == self.stats(),
    {
        &self.statistics
    }

    /// The corpus store in use.
    pub fn monkey(&self) -> (r: &MonkeyType)
        ensures
            *r == self.corpus(),
    {
        &self.monkey
    }

    /// The language of the next attempt when its corpus still has to be
    /// loaded.
    pub fn needs_corpus(&self) -> (r: Option<Language>)
        ensures
            r == if self.corpus_current() {
                None
            } else {
                Some(self.spec_language())
            },
    {
        if self.monkey.language != self.language {
            Some(self.language)
        } else {
            None
        }
    }

    /// Puts a freshly loaded corpus store in place. The current attempt keeps
    /// its text; the next one draws from the new corpus.
    pub fn provide_corpus(&mut self, monkey: MonkeyType)
        requires
            old(self).wf(),
        ensures
            final(self).wf(),
            final(self).corpus() == monkey,
            final(self).text() == old(self).text(),
            final(self).typed() == old(self).typed(),
            final(self).wrong() == old(self).wrong(),
            final(self).stats() == old(self).stats(),
            final(self).has_test() == old(self).has_test(),
            final(self).spec_mode() == old(self).spec_mode(),
            final(self).spec_language() == old(self).spec_language(),
    {
        self.monkey = monkey;
    }

    /// The session with `mode` for the next attempt.
    pub fn mode(self, mode: Mode) -> (r: Self)
        requires
            self.wf(),
        ensures
            r.wf(),
            r.spec_mode() == mode,
            r.spec_language() == self.spec_language(),
            r.corpus() == self.corpus(),
            r.text() == self.text(),
            r.typed() == self.typed(),
            r.has_test() == self.has_test(),
    {
        let mut s = self;
        s.mode = mode;
        s
    }

    /// Sets the mode of the next attempt.
    pub fn set_mode(&mut self, mode: Mode)
        requires
            old(self).wf(),
        ensures
            final(self).wf(),
            final(self).spec_mode() == mode,
            final(self).spec_language() == old(self).spec_language(),
            final(self).corpus() == old(self).corpus(),
            final(self).text() == old(self).text(),
            final(self).typed() == old(self).typed(),
            final(self).wrong() == old(self).wrong(),
            final(self).stats() == old(self).stats(),
            final(self).has_test() == old(self).has_test(),
    {
        self.mode = mode;
    }

    /// The session with `language` for the next attempt.
    pub fn language(self, language: Language) -> (r: Self)
        requires
            self.wf(),
        ensures
            r.wf(),
            r.spec_language() == language,
            r.spec_mode() == self.spec_mode(),
            r.corpus() == self.corpus(),
            r.text() == self.text(),
            r.typed() == self.typed(),
            r.has_test() == self.has_test(),
    {
        let mut s = self;
        s.language = language;
        s
    }

    /// Sets the language of the next attempt; its corpus is loaded before
    /// that attempt.
    pub fn set_language(&mut self, language: Language)
        requires
            old(self).wf(),
        ensures
            final(self).wf(),
            final(self).spec_language() == language,
            final(self).spec_mode() == old(self).spec_mode(),
            final(self).corpus() == old(self).corpus(),
            final(self).text() == old(self).text(),
            final(self).typed() == old(self).typed(),
            final(self).wrong() == old(self).wrong(),
            final(self).stats() == old(self).stats(),
            final(self).has_test() == old(self).has_test(),
    {
        self.language = language;
    }
}

} // verus!
