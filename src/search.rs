//! Search over labelled menu entries: splitting the typed query into words,
//! matching entries that contain every word, and building category labels.
use vstd::prelude::*;

use crate::strings::push_char;

verus! {

/// The mark between a category and the label inside it.
pub const CATEGORY_SEPARATOR: char = '\u{f0142}';

/// `needle` occurs in `haystack` as a contiguous run.
pub open spec fn is_substring(needle: Seq<char>, haystack: Seq<char>) -> bool {
    exists|i: int|
        0 <= i && i + needle.len() <= haystack.len() && #[trigger] haystack.subrange(
            i,
            i + needle.len(),
        ) == needle
}

/// Relies on `str::contains` with a `&str` pattern: whether `needle` occurs
/// in `haystack` as a contiguous run of characters.
#[verifier::external_body]
fn contains_str(haystack: &str, needle: &str) -> (r: bool)
    ensures
        r == is_substring(needle@, haystack@),
{
    haystack.contains(needle)
}

/// Splitting state: the words so far and the index of the word being typed.
pub type SplitState = (Seq<Seq<char>>, nat);

/// One character of the query: the word being typed is opened if needed;
/// a space moves on to the next word, any other character extends it.
pub open spec fn split_step(st: SplitState, c: char) -> SplitState {
    let words = if st.0.len() <= st.1 {
        st.0.push(Seq::<char>::empty())
    } else {
        st.0
    };
    if c != ' ' {
        (words.update(st.1 as int, words[st.1 as int].push(c)), st.1)
    } else {
        (words, st.1 + 1)
    }
}

/// The splitting state after the whole query.
pub open spec fn split_input(input: Seq<char>) -> SplitState
    decreases input.len(),
{
    if input.len() == 0 {
        (Seq::empty(), 0)
    } else {
        split_step(split_input(input.drop_last()), input.last())
    }
}

proof fn lemma_split_shape(input: Seq<char>)
    ensures
        split_input(input).1 <= input.len(),
        split_input(input).0.len() == split_input(input).1 || split_input(input).0.len()
            == split_input(input).1 + 1,
    decreases input.len(),
{
    if input.len() > 0 {
        lemma_split_shape(input.drop_last());
    }
}

/// The words of a search query: the runs between spaces, where each space
/// after a word starts the next one, so that runs of spaces leave empty words
/// between and a trailing space adds none.
pub fn format_input(input: &Vec<char>) -> (r: Vec<String>)
    ensures
        r@.len() == split_input(input@).0.len(),
        forall|k: int| 0 <= k < r@.len() ==> #[trigger] r@[k]@ == split_input(input@).0[k],
{
    let mut words: Vec<String> = Vec::new();
    let mut index: usize = 0;
    let mut i: usize = 0;
    while i < input.len()
        invariant
            i <= input@.len(),
            index <= i,
            words@.len() == split_input(input@.subrange(0, i as int)).0.len(),
            index == split_input(input@.subrange(0, i as int)).1,
            forall|k: int|
                0 <= k < words@.len() ==> #[trigger] words@[k]@ == split_input(
                    input@.subrange(0, i as int),
                ).0[k],
        decreases input@.len() - i,
    {
        let ghost prefix = input@.subrange(0, i as int);
        let ghost next = input@.subrange(0, i + 1);
        proof {
            lemma_split_shape(prefix);
            assert(next.drop_last() =~= prefix);
            assert(next.last() == input@[i as int]);
        }
        let ghost st = split_input(prefix);
        if words.len() <= index {
            words.push(String::new());
        }
        let ghost opened = if st.0.len() <= st.1 {
            st.0.push(Seq::<char>::empty())
        } else {
            st.0
        };
        assert(words@.len() == opened.len());
        assert forall|k: int| 0 <= k < words@.len() implies #[trigger] words@[k]@ == opened[k] by {}
        let c = input[i];
        if c != ' ' {
            let mut word = words[index].clone();
            push_char(&mut word, c);
            words.set(index, word);
        } else {
            index += 1;
        }
        i += 1;
    }
    assert(input@.subrange(0, input@.len() as int) =~= input@);
    words
}

/// Every word occurs in `string`.
pub fn matches(words: &[String], string: &str) -> (r: bool)
    ensures
        r == forall|k: int| 0 <= k < words@.len() ==> is_substring(#[trigger] words@[k]@, string@),
{
    let mut k: usize = 0;
    while k < words.len()
        invariant
            k <= words@.len(),
            forall|j: int| 0 <= j < k ==> is_substring(#[trigger] words@[j]@, string@),
        decreases words@.len() - k,
    {
        if !contains_str(string, words[k].as_str()) {
            return false;
        }
        k += 1;
    }
    true
}

/// The label of an entry `text` inside `category`: both joined by the
/// separator and a space, or whichever of them is there.
pub fn add_to_category(category: Option<&str>, text: Option<&str>) -> (r: Option<String>)
    ensures
        match (category, text) {
            (Some(c), Some(t)) => r is Some && r->0@ == c@ + seq![CATEGORY_SEPARATOR, ' '] + t@,
            (None, Some(t)) => r is Some && r->0@ == t@,
            (Some(c), None) => r is Some && r->0@ == c@,
            (None, None) => r is None,
        },
{
    match (category, text) {
        (Some(category), Some(text)) => {
            let mut s = String::from_str(category);
            push_char(&mut s, CATEGORY_SEPARATOR);
            push_char(&mut s, ' ');
            s.append(text);
            assert(s@ =~= category@ + seq![CATEGORY_SEPARATOR, ' '] + text@);
            Some(s)
        },
        (None, Some(text)) => Some(String::from_str(text)),
        (Some(category), None) => Some(String::from_str(category)),
        (None, None) => None,
    }
}

} // verus!
