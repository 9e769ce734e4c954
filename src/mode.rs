//! Test modes and the quote-length buckets.
use vstd::prelude::*;

verus! {

/// Length bucket of a quote. `All` stands for every bucket when used as a filter.
#[derive(Clone, Copy, Debug, PartialEq, Eq, Structural)]
pub enum QuoteLength {
    All,
    Short,
    Medium,
    Long,
    Thicc,
}

/// Bucket of a quote of `length` characters; each bound is inclusive on the upper end.
pub open spec fn bucket_of(length: nat) -> QuoteLength {
    if length <= 100 {
        QuoteLength::Short
    } else if length <= 300 {
        QuoteLength::Medium
    } else if length <= 600 {
        QuoteLength::Long
    } else {
        QuoteLength::Thicc
    }
}

impl From<usize> for QuoteLength {
    fn from(length: usize) -> (r: QuoteLength)
        ensures
            r == bucket_of(length as nat),
    {
        if length <= 100 {
            QuoteLength::Short
        } else if length <= 300 {
            QuoteLength::Medium
        } else if length <= 600 {
            QuoteLength::Long
        } else {
            QuoteLength::Thicc
        }
    }
}

impl vstd::std_specs::convert::FromSpecImpl<usize> for QuoteLength {
    open spec fn obeys_from_spec() -> bool {
        true
    }

    open spec fn from_spec(length: usize) -> QuoteLength {
        bucket_of(length as nat)
    }
}

impl QuoteLength {
    pub open spec fn spec_label(self) -> Seq<char> {
        match self {
            QuoteLength::All => "all"@,
            QuoteLength::Short => "short"@,
            QuoteLength::Medium => "medium"@,
            QuoteLength::Long => "long"@,
            QuoteLength::Thicc => "thicc"@,
        }
    }

    /// The name of the variant, as its derived `Debug` writes it.
    pub open spec fn spec_debug_name(self) -> Seq<char> {
        match self {
            QuoteLength::All => "All"@,
            QuoteLength::Short => "Short"@,
            QuoteLength::Medium => "Medium"@,
            QuoteLength::Long => "Long"@,
            QuoteLength::Thicc => "Thicc"@,
        }
    }

    pub fn debug_name(&self) -> (r: &'static str)
        ensures
            r@ == self.spec_debug_name(),
    {
        match self {
            QuoteLength::All => "All",
            QuoteLength::Short => "Short",
            QuoteLength::Medium => "Medium",
            QuoteLength::Long => "Long",
            QuoteLength::Thicc => "Thicc",
        }
    }

    /// The lower-case name of the bucket.
    pub fn as_str(&self) -> (r: &'static str)
        ensures
            r@ == self.spec_label(),
    {
        match self {
            QuoteLength::All => "all",
            QuoteLength::Short => "short",
            QuoteLength::Medium => "medium",
            QuoteLength::Long => "long",
            QuoteLength::Thicc => "thicc",
        }
    }
}

/// Duration of a timed test.
#[derive(Clone, Copy, Debug, PartialEq, Eq, Structural)]
pub enum Seconds {
    S15,
    S30,
    S60,
    S120,
    Custom(usize),
}

impl Seconds {
    pub open spec fn value(self) -> nat {
        match self {
            Seconds::S15 => 15,
            Seconds::S30 => 30,
            Seconds::S60 => 60,
            Seconds::S120 => 120,
            Seconds::Custom(secs) => secs as nat,
        }
    }

    pub fn as_usize(&self) -> (r: usize)
        ensures
            r == self.value(),
    {
        match self {
            Seconds::S15 => 15,
            Seconds::S30 => 30,
            Seconds::S60 => 60,
            Seconds::S120 => 120,
            Seconds::Custom(secs) => *secs,
        }
    }
}

/// Number of words of a word test.
#[derive(Clone, Copy, Debug, PartialEq, Eq, Structural)]
pub enum WordCount {
    W10,
    W25,
    W50,
    W100,
    Custom(usize),
}

impl WordCount {
    pub open spec fn value(self) -> nat {
        match self {
            WordCount::W10 => 10,
            WordCount::W25 => 25,
            WordCount::W50 => 50,
            WordCount::W100 => 100,
            WordCount::Custom(words) => words as nat,
        }
    }

    pub fn as_usize(&self) -> (r: usize)
        ensures
            r == self.value(),
    {
        match self {
            WordCount::W10 => 10,
            WordCount::W25 => 25,
            WordCount::W50 => 50,
            WordCount::W100 => 100,
            WordCount::Custom(words) => *words,
        }
    }
}

/// What a test is made of: words for a time, a number of words, or a quote of
/// one of the allowed lengths.
#[derive(Debug)]
pub enum Mode {
    Time(Seconds),
    Words { word_count: WordCount, punctuation: bool, numbers: bool },
    Quote { lengths: Vec<QuoteLength> },
}

impl Default for Mode {
    fn default() -> (r: Mode)
        ensures
            r == Mode::Time(Seconds::S60),
    {
        Mode::Time(Seconds::S60)
    }
}

} // verus!
