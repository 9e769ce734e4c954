//! The errors of the engine.
use vstd::prelude::*;

use crate::language::Language;
use crate::mode::QuoteLength;

verus! {

/// A failure of corpus loading or content generation.
#[derive(Debug)]
pub enum Error {
    CorpusNotFound(Language),
    NoWordsForLanguage(Language),
    NoQuoteWithLengths(Vec<QuoteLength>),
    NoQuotesForLanguage(Language),
    /// A failure below the engine, such as reading a corpus file, described by
    /// the resource that failed.
    Generic(String),
}

pub type Result<T> = std::result::Result<T, Error>;

/// The bucket variant names, separated by ", ".
pub open spec fn joined_labels(lengths: Seq<QuoteLength>) -> Seq<char>
    decreases lengths.len(),
{
    if lengths.len() == 0 {
        Seq::empty()
    } else if lengths.len() == 1 {
        lengths[0].spec_debug_name()
    } else {
        joined_labels(lengths.drop_last()) + ", "@ + lengths.last().spec_debug_name()
    }
}

impl Error {
    /// The same error, lists of buckets compared by their elements.
    pub open spec fn same_as(&self, other: &Error) -> bool {
        match (self, other) {
            (Error::NoQuoteWithLengths(a), Error::NoQuoteWithLengths(b)) => a@ == b@,
            (Error::Generic(a), Error::Generic(b)) => a@ == b@,
            _ => self == other,
        }
    }

    /// The message of the error.
    pub open spec fn message(&self) -> Seq<char> {
        match self {
            Error::CorpusNotFound(language) => "There is no corpus for the language: "@
                + language.spec_name(),
            Error::NoWordsForLanguage(language) => "There are no words for the language: "@
                + language.spec_name(),
            Error::NoQuoteWithLengths(lengths) => "There are no quotes with lengths: ["@
                + joined_labels(lengths@) + "]"@,
            Error::NoQuotesForLanguage(language) => "There are no quotes for the language: "@
                + language.spec_name(),
            Error::Generic(message) => message@,
        }
    }

    pub fn as_string(&self) -> (r: String)
        ensures
            r@ == self.message(),
    {
        match self {
            Error::CorpusNotFound(language) => {
                let mut s = String::from_str("There is no corpus for the language: ");
                s.append(language.name());
                s
            },
            Error::NoWordsForLanguage(language) => {
                let mut s = String::from_str("There are no words for the language: ");
                s.append(language.name());
                s
            },
            Error::NoQuoteWithLengths(lengths) => {
                let mut s = String::from_str("There are no quotes with lengths: [");
                let ghost prefix = s@;
                let mut i: usize = 0;
                while i < lengths.len()
                    invariant
                        i <= lengths@.len(),
                        s@ == prefix + joined_labels(lengths@.subrange(0, i as int)),
                    decreases lengths@.len() - i,
                {
                    let ghost before = s@;
                    if i > 0 {
                        s.append(", ");
                    }
                    s.append(lengths[i].debug_name());
                    proof {
                        let next = lengths@.subrange(0, i + 1);
                        assert(next.drop_last() =~= lengths@.subrange(0, i as int));
                        assert(next.last() == lengths@[i as int]);
                        if i == 0 {
                            assert(before == prefix);
                            assert(s@ =~= prefix + joined_labels(next));
                        } else {
                            assert(s@ =~= prefix + joined_labels(next));
                        }
                    }
                    i += 1;
                }
                assert(lengths@.subrange(0, lengths@.len() as int) =~= lengths@);
                s.append("]");
                s
            },
            Error::NoQuotesForLanguage(language) => {
                let mut s = String::from_str("There are no quotes for the language: ");
                s.append(language.name());
                s
            },
            Error::Generic(message) => message.clone(),
        }
    }
}

} // verus!
