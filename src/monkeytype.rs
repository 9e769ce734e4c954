//! The corpus store and content generator: the words and quotes of one
//! language, and random picks from them.
use vstd::prelude::*;

use rand::Rng;

use crate::error::Error;
use crate::language::Language;
use crate::mode::{bucket_of, QuoteLength};
use crate::punctuation::{apply, punctuated, PunctuationKind};
use crate::strings::{decimal, decimal_string, string_views};

verus! {

/// Percentage of the words that punctuation decorates.
pub const PUNCTUATION_PERCENTAGE: usize = 30;

/// One word in this many becomes a number when numbers are asked for.
pub const NUMBER_ODDS: usize = 10;

/// Numbers put among the words are below this bound.
pub const NUMBER_BOUND: usize = 10000;

/// The decoration kinds used for word tests with punctuation.
pub open spec fn punctuation_kinds() -> Seq<PunctuationKind> {
    seq![PunctuationKind::AfterNumber, PunctuationKind::EndOfWord, PunctuationKind::AroundWord]
}

/// A quote with its length in characters and its length bucket, which the
/// length fixes when the quote is made.
#[derive(Debug)]
pub struct Quote {
    text: String,
    length: usize,
    bucket: QuoteLength,
}

impl Quote {
    #[verifier::type_invariant]
    spec fn bucket_fixed(self) -> bool {
        self.bucket == bucket_of(self.length as nat)
    }

    pub closed spec fn spec_text(&self) -> Seq<char> {
        self.text@
    }

    pub closed spec fn spec_length(&self) -> nat {
        self.length as nat
    }

    /// The bucket of the quote: that of its length.
    pub open spec fn spec_bucket(&self) -> QuoteLength {
        bucket_of(self.spec_length())
    }

    /// A quote whose bucket follows from its length.
    pub fn new(text: String, length: usize) -> (r: Quote)
        ensures
            r.spec_text() == text@,
            r.spec_length() == length,
    {
        let bucket = QuoteLength::from(length);
        Quote { text, length, bucket }
    }

    pub fn text(&self) -> (r: &String)
        ensures
            r@ == self.spec_text(),
    {
        &self.text
    }

    pub fn length(&self) -> (r: usize)
        ensures
            r == self.spec_length(),
    {
        self.length
    }

    pub fn bucket(&self) -> (r: QuoteLength)
        ensures
            r == self.spec_bucket(),
    {
        proof {
            use_type_invariant(self);
        }
        self.bucket
    }
}

/// One word of a generated sequence: a corpus word, chosen by a draw taken
/// modulo the corpus size, or a number.
#[derive(Clone, Copy, Debug, PartialEq, Eq, Structural)]
pub enum WordPick {
    Corpus(usize),
    Number(u32),
}

/// Relies on `rand::Rng::gen_range` on `rand::thread_rng()`: a value drawn
/// from `0..n`, which must not be empty.
#[verifier::external_body]
fn random_below(n: usize) -> (r: usize)
    requires
        n > 0,
    ensures
        r < n,
{
    rand::thread_rng().gen_range(0..n)
}

/// The filter `lengths` lets a quote of bucket `b` through.
pub open spec fn allows(lengths: Seq<QuoteLength>, b: QuoteLength) -> bool {
    lengths.contains(QuoteLength::All) || lengths.contains(b)
}

/// Indices, in order, of the quotes among the first `n` that `lengths` lets through.
pub open spec fn matching_indices(quotes: Seq<Quote>, lengths: Seq<QuoteLength>, n: int) -> Seq<int>
    decreases n,
{
    if n <= 0 {
        Seq::empty()
    } else if allows(lengths, quotes[n - 1].spec_bucket()) {
        matching_indices(quotes, lengths, n - 1).push(n - 1)
    } else {
        matching_indices(quotes, lengths, n - 1)
    }
}

fn allows_bucket(lengths: &Vec<QuoteLength>, b: QuoteLength) -> (r: bool)
    ensures
        r == allows(lengths@, b),
{
    let mut i: usize = 0;
    while i < lengths.len()
        invariant
            i <= lengths@.len(),
            forall|k: int| 0 <= k < i ==> lengths@[k] != QuoteLength::All && lengths@[k] != b,
        decreases lengths@.len() - i,
    {
        if lengths[i] == QuoteLength::All || lengths[i] == b {
            assert(lengths@.contains(lengths@[i as int]));
            return true;
        }
        i += 1;
    }
    false
}

fn copy_lengths(lengths: &Vec<QuoteLength>) -> (r: Vec<QuoteLength>)
    ensures
        r@ == lengths@,
{
    let mut r: Vec<QuoteLength> = Vec::new();
    let mut i: usize = 0;
    while i < lengths.len()
        invariant
            i <= lengths@.len(),
            r@ == lengths@.subrange(0, i as int),
        decreases lengths@.len() - i,
    {
        r.push(lengths[i]);
        assert(r@ =~= lengths@.subrange(0, i + 1));
        i += 1;
    }
    assert(r@ =~= lengths@);
    r
}

proof fn lemma_matching_in_range(quotes: Seq<Quote>, lengths: Seq<QuoteLength>, n: int)
    requires
        n <= quotes.len(),
    ensures
        forall|k: int|
            0 <= k < matching_indices(quotes, lengths, n).len() ==> {
                let i = #[trigger] matching_indices(quotes, lengths, n)[k];
                0 <= i < n && allows(lengths, quotes[i].spec_bucket())
            },
    decreases n,
{
    if n > 0 {
        lemma_matching_in_range(quotes, lengths, n - 1);
        let prev = matching_indices(quotes, lengths, n - 1);
        let cur = matching_indices(quotes, lengths, n);
        assert forall|k: int| 0 <= k < cur.len() implies 0 <= #[trigger] cur[k] < n && allows(
            lengths,
            quotes[cur[k]].spec_bucket(),
        ) by {
            if k < prev.len() {
                assert(cur[k] == prev[k]);
            }
        }
    }
}

/// The words of one language, and its quotes where the language has any.
pub struct MonkeyType {
    pub language: Language,
    pub quotes: Option<Vec<Quote>>,
    pub words: Vec<String>,
}

impl MonkeyType {
    pub open spec fn word_list(&self) -> Seq<Seq<char>> {
        string_views(self.words@)
    }

    pub open spec fn quote_list(&self) -> Option<Seq<Quote>> {
        match self.quotes {
            Some(q) => Some(q@),
            None => None,
        }
    }

    /// Indices of the quotes that `lengths` lets through.
    pub open spec fn matches_for(&self, lengths: Seq<QuoteLength>) -> Seq<int> {
        matching_indices(self.quotes->0@, lengths, self.quotes->0@.len() as int)
    }

    /// The word that `pick` stands for.
    pub open spec fn picked(&self, pick: WordPick) -> Seq<char> {
        match pick {
            WordPick::Corpus(i) => self.word_list()[(i as int) % (self.word_list().len() as int)],
            WordPick::Number(n) => decimal(n as nat),
        }
    }

    /// The words that `picks` stand for, decorated when `punctuation` is set.
    pub open spec fn composed(&self, picks: Seq<WordPick>, punctuation: bool) -> Seq<Seq<char>> {
        let plain = Seq::new(picks.len(), |j: int| self.picked(picks[j]));
        if punctuation {
            punctuated(
                plain,
                self.language,
                punctuation_kinds(),
                PUNCTUATION_PERCENTAGE as nat,
            )
        } else {
            plain
        }
    }

    /// A store over the given corpora; fails when there is no word list.
    pub fn new(language: Language, words: Option<Vec<String>>, quotes: Option<Vec<Quote>>) -> (r:
        Result<Self, Error>)
        ensures
            words is None ==> r == Err::<Self, Error>(Error::CorpusNotFound(language)),
            words is Some ==> r is Ok && r->Ok_0.language == language && r->Ok_0.word_list()
                == string_views(words->0@) && r->Ok_0.quote_list() == match quotes {
                Some(q) => Some(q@),
                None => None::<Seq<Quote>>,
            },
    {
        match words {
            Some(words) => Ok(MonkeyType { language, quotes, words }),
            None => Err(Error::CorpusNotFound(language)),
        }
    }

    /// Replaces the corpora with those of `language`; on failure nothing changes.
    pub fn set_language(
        &mut self,
        language: Language,
        words: Option<Vec<String>>,
        quotes: Option<Vec<Quote>>,
    ) -> (r: Result<(), Error>)
        ensures
            words is None ==> r == Err::<(), Error>(Error::CorpusNotFound(language)) && *final(self)
                == *old(self),
            words is Some ==> r is Ok && final(self).language == language
                && final(self).word_list() == string_views(words->0@) && final(self).quote_list()
                == match quotes {
                Some(q) => Some(q@),
                None => None::<Seq<Quote>>,
            },
    {
        match words {
            Some(words) => {
                self.quotes = quotes;
                self.words = words;
                self.language = language;
                Ok(())
            },
            None => Err(Error::CorpusNotFound(language)),
        }
    }

    /// Indices of the quotes that `lengths` lets through, in corpus order.
    fn matching(quotes: &Vec<Quote>, lengths: &Vec<QuoteLength>) -> (r: Vec<usize>)
        ensures
            r@.len() == matching_indices(quotes@, lengths@, quotes@.len() as int).len(),
            forall|k: int|
                0 <= k < r@.len() ==> r@[k] as int == matching_indices(
                    quotes@,
                    lengths@,
                    quotes@.len() as int,
                )[k],
    {
        let mut r: Vec<usize> = Vec::new();
        let mut i: usize = 0;
        while i < quotes.len()
            invariant
                i <= quotes@.len(),
                r@.len() == matching_indices(quotes@, lengths@, i as int).len(),
                forall|k: int|
                    0 <= k < r@.len() ==> r@[k] as int == matching_indices(
                        quotes@,
                        lengths@,
                        i as int,
                    )[k],
            decreases quotes@.len() - i,
        {
            if allows_bucket(lengths, quotes[i].bucket()) {
                r.push(i);
            }
            i += 1;
        }
        r
    }

    /// The quote that `draw`, taken modulo the number of quotes that `lengths`
    /// lets through, picks among them in corpus order.
    pub fn quote_for_draw(&self, lengths: &Vec<QuoteLength>, draw: usize) -> (r: Result<
        &Quote,
        Error,
    >)
        ensures
            self.quotes is None ==> r == Err::<&Quote, Error>(
                Error::NoQuotesForLanguage(self.language),
            ),
            self.quotes is Some && self.matches_for(lengths@).len() == 0 ==> (r matches Err(
                Error::NoQuoteWithLengths(l),
            ) && l@ == lengths@),
            self.quotes is Some && self.matches_for(lengths@).len() > 0 ==> r is Ok && *r->Ok_0
                == self.quotes->0@[self.matches_for(lengths@)[(draw as int) % (self.matches_for(
                lengths@,
            ).len() as int)]],
            r is Ok ==> allows(lengths@, r->Ok_0.spec_bucket()),
    {
        match &self.quotes {
            None => Err(Error::NoQuotesForLanguage(self.language)),
            Some(quotes) => {
                let m = Self::matching(quotes, lengths);
                if m.len() == 0 {
                    Err(Error::NoQuoteWithLengths(copy_lengths(lengths)))
                } else {
                    proof {
                        lemma_matching_in_range(quotes@, lengths@, quotes@.len() as int);
                    }
                    let k = m[draw % m.len()];
                    Ok(&quotes[k])
                }
            },
        }
    }

    /// A quote drawn uniformly among those that `lengths` lets through.
    pub fn random_quote(&self, lengths: &Vec<QuoteLength>) -> (r: Result<&Quote, Error>)
        ensures
            self.quotes is None ==> r == Err::<&Quote, Error>(
                Error::NoQuotesForLanguage(self.language),
            ),
            self.quotes is Some && self.matches_for(lengths@).len() == 0 ==> (r matches Err(
                Error::NoQuoteWithLengths(l),
            ) && l@ == lengths@),
            self.quotes is Some && self.matches_for(lengths@).len() > 0 ==> r is Ok && exists|k: int|
                0 <= k < self.matches_for(lengths@).len() && *r->Ok_0
                    == self.quotes->0@[#[trigger] self.matches_for(lengths@)[k]],
            r is Ok ==> allows(lengths@, r->Ok_0.spec_bucket()),
    {
        match &self.quotes {
            None => Err(Error::NoQuotesForLanguage(self.language)),
            Some(quotes) => {
                let count = Self::matching(quotes, lengths).len();
                if count == 0 {
                    self.quote_for_draw(lengths, 0)
                } else {
                    let draw = random_below(count);
                    self.quote_for_draw(lengths, draw)
                }
            },
        }
    }

    /// The words that `picks` stand for, decorated with the punctuation of the
    /// store's language when `punctuation` is set; `None` for an empty corpus.
    pub fn words_for_picks(&self, picks: &Vec<WordPick>, punctuation: bool) -> (r: Option<
        Vec<String>,
    >)
        ensures
            self.word_list().len() == 0 <==> r is None,
            r is Some ==> r->0@.len() == picks@.len(),
            r is Some ==> string_views(r->0@) == self.composed(picks@, punctuation),
    {
        let len = self.words.len();
        if len == 0 {
            return None;
        }
        let mut out: Vec<String> = Vec::new();
        let mut j: usize = 0;
        while j < picks.len()
            invariant
                len == self.words@.len(),
                len > 0,
                j <= picks@.len(),
                string_views(out@) =~= Seq::new(j as nat, |k: int| self.picked(picks@[k])),
            decreases picks@.len() - j,
        {
            let word = match picks[j] {
                WordPick::Corpus(i) => self.words[i % len].clone(),
                WordPick::Number(n) => decimal_string(n),
            };
            proof {
                match picks@[j as int] {
                    WordPick::Corpus(i) => {
                        assert(self.word_list()[(i as int) % (len as int)] == word@);
                    },
                    WordPick::Number(n) => {},
                }
            }
            let ghost before = out@;
            out.push(word);
            assert(string_views(out@) =~= string_views(before).push(word@));
            j += 1;
        }
        if punctuation {
            let kinds = vec![
                PunctuationKind::AfterNumber,
                PunctuationKind::EndOfWord,
                PunctuationKind::AroundWord,
            ];
            assert(kinds@ =~= punctuation_kinds());
            Some(apply(out, self.language, kinds, PUNCTUATION_PERCENTAGE))
        } else {
            Some(out)
        }
    }

    /// `count` words drawn independently and uniformly from the corpus, with
    /// replacement; with `numbers`, each word is instead a number below
    /// `NUMBER_BOUND` with odds of one in `NUMBER_ODDS`; with `punctuation`,
    /// decorated as `words_for_picks` does. `None` for an empty corpus.
    pub fn random_words(&self, count: usize, punctuation: bool, numbers: bool) -> (r: Option<
        Vec<String>,
    >)
        ensures
            self.word_list().len() == 0 <==> r is None,
            r is Some ==> r->0@.len() == count,
            r is Some && !punctuation && !numbers ==> forall|j: int|
                0 <= j < count ==> self.word_list().contains(#[trigger] r->0@[j]@),
            r is Some ==> exists|picks: Seq<WordPick>|
                {
                    &&& picks.len() == count
                    &&& forall|j: int|
                        0 <= j < count && !numbers ==> #[trigger] picks[j] is Corpus
                    &&& forall|j: int|
                        0 <= j < count && #[trigger] picks[j] is Number ==> picks[j]->Number_0
                            < NUMBER_BOUND
                    &&& string_views(r->0@) == self.composed(picks, punctuation)
                },
    {
        let len = self.words.len();
        if len == 0 {
            return None;
        }
        let mut picks: Vec<WordPick> = Vec::new();
        let mut j: usize = 0;
        while j < count
            invariant
                len == self.words@.len(),
                len > 0,
                j <= count,
                picks@.len() == j,
                forall|k: int| 0 <= k < j && !numbers ==> #[trigger] picks@[k] is Corpus,
                forall|k: int|
                    0 <= k < j && #[trigger] picks@[k] is Number ==> picks@[k]->Number_0
                        < NUMBER_BOUND,
            decreases count - j,
        {
            if numbers && random_below(NUMBER_ODDS) == 0 {
                let n = random_below(NUMBER_BOUND);
                picks.push(WordPick::Number(n as u32));
            } else {
                picks.push(WordPick::Corpus(random_below(len)));
            }
            j += 1;
        }
        let r = self.words_for_picks(&picks, punctuation);
        proof {
            let v = r->0;
            assert(string_views(v@).len() == v@.len());
            if !punctuation && !numbers {
                assert forall|j: int| 0 <= j < count implies self.word_list().contains(
                    #[trigger] v@[j]@,
                ) by {
                    assert(string_views(v@)[j] == v@[j]@);
                    assert(picks@[j] is Corpus);
                    let i = picks@[j]->Corpus_0 as int % len as int;
                    assert(self.word_list()[i] == v@[j]@);
                }
            }
        }
        r
    }
}

} // verus!
