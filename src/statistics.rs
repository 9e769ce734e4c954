//! Keystroke history and the statistics derived from it: characters and
//! words per minute, accuracy, and a words-per-minute series per word.
//!
//! Times are milliseconds on one clock; a test reads them from the wall clock
//! or passes them in.
use vstd::prelude::*;

use std::time::{SystemTime, UNIX_EPOCH};

verus! {

/// One recorded keystroke: the milliseconds since the previous keystroke (or
/// since the start for the first), the position typed at, the character typed,
/// and the expected character when the two differ.
#[derive(Clone, Copy, Debug, PartialEq, Eq, Structural)]
pub struct Char {
    pub diff: u64,
    pub index: usize,
    pub typed: char,
    pub actual: Option<char>,
}

impl Char {
    pub fn new(diff: u64, index: usize, typed: char, actual: Option<char>) -> (r: Self)
        ensures
            r == (Char { diff, index, typed, actual }),
    {
        Char { diff, index, typed, actual }
    }

    /// The keystroke matched the expected character.
    pub fn is_ok(&self) -> (r: bool)
        ensures
            r == (self.actual is None),
    {
        self.actual.is_none()
    }

    /// The keystroke did not match the expected character.
    pub fn is_error(&self) -> (r: bool)
        ensures
            r == (self.actual is Some),
    {
        self.actual.is_some()
    }

    /// The expected character at this keystroke's position was `c`.
    pub open spec fn expects(self, c: char) -> bool {
        self.actual == Some(c) || (self.actual is None && self.typed == c)
    }

    pub fn is_char(&self, c: char) -> (r: bool)
        ensures
            r == self.expects(c),
    {
        match self.actual {
            Some(a) => a == c,
            None => self.typed == c,
        }
    }
}

/// Number of correct keystrokes among the first `n`.
pub open spec fn correct_count(chars: Seq<Char>, n: int) -> nat
    decreases n,
{
    if n <= 0 {
        0
    } else {
        correct_count(chars, n - 1) + if chars[n - 1].actual is None {
            1nat
        } else {
            0nat
        }
    }
}

/// Keystroke `k` is the first correct one at its position.
pub open spec fn first_correct_at(chars: Seq<Char>, k: int) -> bool {
    &&& chars[k].actual is None
    &&& forall|j: int|
        0 <= j < k ==> !(#[trigger] chars[j].actual is None && chars[j].index == chars[k].index)
}

/// Number of distinct positions with a correct keystroke among the first `n`.
pub open spec fn distinct_correct(chars: Seq<Char>, n: int) -> nat
    decreases n,
{
    if n <= 0 {
        0
    } else {
        distinct_correct(chars, n - 1) + if first_correct_at(chars, n - 1) {
            1nat
        } else {
            0nat
        }
    }
}

/// A quotient rounded to the nearest integer, halves up; 0 for a zero divisor.
pub open spec fn rounded_div(a: nat, b: nat) -> nat {
    if b == 0 {
        0
    } else {
        (2 * a + b) / (2 * b)
    }
}

/// Characters per minute: distinct correctly typed positions per elapsed
/// minute, rounded; 0 before the start or when no time has elapsed.
pub open spec fn cpm_of(started: Option<u64>, end: u64, chars: Seq<Char>) -> nat {
    match started {
        None => 0,
        Some(s) => if end <= s {
            0
        } else {
            rounded_div(distinct_correct(chars, chars.len() as int) * 60000, (end - s) as nat)
        },
    }
}

/// Accuracy in hundredths of a percent: correct keystrokes over all
/// keystrokes, rounded; 0 before any keystroke.
pub open spec fn accuracy_of(chars: Seq<Char>) -> nat {
    rounded_div(correct_count(chars, chars.len() as int) * 10000, chars.len())
}

/// Milliseconds from `last` to `now`; 0 when the clock went backwards.
pub open spec fn elapsed(last: u64, now: u64) -> u64 {
    if now >= last {
        (now - last) as u64
    } else {
        0
    }
}

/// Instantaneous words per minute of a keystroke made `diff` milliseconds after
/// the previous one: 60000 / diff / 5, rounded; 0 for no delay.
pub open spec fn char_wpm(diff: u64) -> nat {
    rounded_div(12000, diff as nat)
}

/// Number of keystrokes among the first `n` whose expected character is a space.
pub open spec fn spaces_upto(chars: Seq<Char>, n: int) -> nat
    decreases n,
{
    if n <= 0 {
        0
    } else {
        spaces_upto(chars, n - 1) + if chars[n - 1].expects(' ') {
            1nat
        } else {
            0nat
        }
    }
}

/// The word that keystroke `k` (from the second on) belongs to: the number of
/// spaces expected from the second keystroke up to `k`, exclusive.
pub open spec fn word_of(chars: Seq<Char>, k: int) -> int {
    spaces_upto(chars, k) - spaces_upto(chars, 1)
}

/// Sum of the instantaneous words per minute of word `w` over the keystrokes
/// from the second up to `n`, exclusive. The first keystroke is left out: its
/// delay runs from the start of the attempt, not from a previous keystroke.
pub open spec fn word_wpm_sum(chars: Seq<Char>, w: int, n: int) -> nat
    decreases n,
{
    if n <= 1 {
        0
    } else {
        word_wpm_sum(chars, w, n - 1) + if word_of(chars, n - 1) == w {
            char_wpm(chars[n - 1].diff)
        } else {
            0nat
        }
    }
}

/// Number of keystrokes of word `w` from the second up to `n`, exclusive.
pub open spec fn word_len(chars: Seq<Char>, w: int, n: int) -> nat
    decreases n,
{
    if n <= 1 {
        0
    } else {
        word_len(chars, w, n - 1) + if word_of(chars, n - 1) == w {
            1nat
        } else {
            0nat
        }
    }
}

/// Average words per minute of each word: one more word than there are spaces
/// expected, the average rounded down, 0 for a word without keystrokes.
pub open spec fn word_series(chars: Seq<Char>) -> Seq<nat> {
    let n = chars.len() as int;
    Seq::new(
        1 + spaces_upto(chars, n),
        |w: int|
            if word_len(chars, w, n) == 0 {
                0
            } else {
                word_wpm_sum(chars, w, n) / word_len(chars, w, n)
            },
    )
}

/// Position `i` was mistyped at least once.
pub open spec fn mistyped(chars: Seq<Char>, i: usize) -> bool {
    exists|k: int| 0 <= k < chars.len() && #[trigger] chars[k].actual is Some && chars[k].index == i
}

/// Relies on `SystemTime::now`: the wall-clock time in milliseconds since the
/// Unix epoch, or 0 for a clock set before the epoch. Nothing is promised of
/// its value.
#[verifier::external_body]
pub(crate) fn now_millis() -> u64 {
    match SystemTime::now().duration_since(UNIX_EPOCH) {
        Ok(d) => d.as_millis() as u64,
        Err(_) => 0,
    }
}

/// The keystroke history of one attempt with its start and end times.
pub struct TestStatistics {
    pub started: Option<u64>,
    pub ended: Option<u64>,
    pub last_char_typed: Option<u64>,
    pub chars: Vec<Char>,
}

impl TestStatistics {
    /// No start, no end and no keystroke yet.
    pub open spec fn is_fresh(&self) -> bool {
        &&& self.started is None
        &&& self.ended is None
        &&& self.last_char_typed is None
        &&& self.chars@ == Seq::<Char>::empty()
    }

    /// `new` is `old` after a keystroke of `typed` at `index`, where `actual`
    /// was expected, at time `now`. The first keystroke starts the clock. The
    /// end time is left out.
    pub open spec fn records(
        old: &TestStatistics,
        new: &TestStatistics,
        index: usize,
        typed: char,
        actual: char,
        now: u64,
    ) -> bool {
        let started = match old.started {
            Some(s) => s,
            None => now,
        };
        let last = match old.last_char_typed {
            Some(l) => l,
            None => started,
        };
        &&& new.started == Some(started)
        &&& new.last_char_typed == Some(now)
        &&& new.chars@ == old.chars@.push(
            Char {
                diff: elapsed(last, now),
                index,
                typed,
                actual: if typed == actual {
                    None
                } else {
                    Some(actual)
                },
            },
        )
    }

    /// The end time, or `now` while the attempt runs.
    pub open spec fn end_or(&self, now: u64) -> u64 {
        match self.ended {
            Some(e) => e,
            None => now,
        }
    }

    pub fn new() -> (r: Self)
        ensures
            r.is_fresh(),
    {
        TestStatistics { started: None, ended: None, last_char_typed: None, chars: Vec::new() }
    }

    /// Forgets the start, the end and every keystroke.
    pub fn reset(&mut self)
        ensures
            final(self).is_fresh(),
    {
        self.started = None;
        self.ended = None;
        self.last_char_typed = None;
        self.chars = Vec::new();
    }

    /// Starts the clock at `now`.
    pub fn start_at(&mut self, now: u64)
        ensures
            final(self).started == Some(now),
            final(self).ended == old(self).ended,
            final(self).last_char_typed == old(self).last_char_typed,
            final(self).chars@ == old(self).chars@,
    {
        self.started = Some(now);
    }

    /// Starts the clock now.
    pub fn start(&mut self)
        ensures
            final(self).started is Some,
            final(self).ended == old(self).ended,
            final(self).last_char_typed == old(self).last_char_typed,
            final(self).chars@ == old(self).chars@,
    {
        let now = now_millis();
        self.start_at(now);
    }

    /// Stops the clock at `now`.
    pub fn end_at(&mut self, now: u64)
        ensures
            final(self).ended == Some(now),
            final(self).started == old(self).started,
            final(self).last_char_typed == old(self).last_char_typed,
            final(self).chars@ == old(self).chars@,
    {
        self.ended = Some(now);
    }

    /// Stops the clock now.
    pub fn end(&mut self)
        ensures
            final(self).ended is Some,
            final(self).started == old(self).started,
            final(self).last_char_typed == old(self).last_char_typed,
            final(self).chars@ == old(self).chars@,
    {
        let now = now_millis();
        self.end_at(now);
    }

    /// Records a keystroke of `typed` at `index`, where `actual` was expected,
    /// made at time `now`.
    pub fn new_char_at(&mut self, index: usize, typed: char, actual: char, now: u64)
        ensures
            Self::records(old(self), final(self), index, typed, actual, now),
            final(self).ended == old(self).ended,
    {
        let started = match self.started {
            Some(s) => s,
            None => {
                self.started = Some(now);
                now
            },
        };
        let last = match self.last_char_typed {
            Some(l) => l,
            None => started,
        };
        let diff = if now >= last {
            now - last
        } else {
            0
        };
        if typed == actual {
            self.chars.push(Char::new(diff, index, typed, None));
        } else {
            self.chars.push(Char::new(diff, index, typed, Some(actual)));
        }
        self.last_char_typed = Some(now);
    }

    /// Records a keystroke made now.
    pub fn new_char(&mut self, index: usize, typed: char, actual: char)
        ensures
            exists|now: u64| Self::records(old(self), final(self), index, typed, actual, now),
            final(self).ended == old(self).ended,
    {
        let now = now_millis();
        self.new_char_at(index, typed, actual, now);
    }

    /// Characters per minute with the clock reading `now` if the attempt has
    /// not ended.
    pub fn cpm_at(&self, now: u64) -> (r: u128)
        ensures
            r == cpm_of(self.started, self.end_or(now), self.chars@),
    {
        let started = match self.started {
            Some(s) => s,
            None => return 0,
        };
        let ended = match self.ended {
            Some(e) => e,
            None => now,
        };
        if ended <= started {
            return 0;
        }
        let right = Self::distinct_correct_count(self.chars.as_slice());
        let e = (ended - started) as u128;
        assert(right * 60000 * 2 + e <= u128::MAX) by (nonlinear_arith)
            requires
                right <= usize::MAX,
                e <= u64::MAX,
        ;
        (2 * (right as u128 * 60000) + e) / (2 * e)
    }

    /// Characters per minute, the clock read now if the attempt has not ended.
    pub fn cpm(&self) -> (r: u128)
        ensures
            exists|now: u64| r == cpm_of(self.started, self.end_or(now), self.chars@),
            self.ended is Some ==> r == cpm_of(self.started, self.ended->0, self.chars@),
    {
        let now = now_millis();
        self.cpm_at(now)
    }

    /// Words per minute with the clock reading `now` if the attempt has not
    /// ended: characters per minute over five, rounded down.
    pub fn wpm_at(&self, now: u64) -> (r: u128)
        ensures
            r == cpm_of(self.started, self.end_or(now), self.chars@) / (crate::CHARS_PER_WORD as nat),
    {
        self.cpm_at(now) / (crate::CHARS_PER_WORD as u128)
    }

    /// Words per minute, the clock read now if the attempt has not ended.
    pub fn wpm(&self) -> (r: u128)
        ensures
            exists|now: u64|
                r == cpm_of(self.started, self.end_or(now), self.chars@) / (
                crate::CHARS_PER_WORD as nat),
            self.ended is Some ==> r == cpm_of(self.started, self.ended->0, self.chars@) / (
            crate::CHARS_PER_WORD as nat),
    {
        let now = now_millis();
        self.wpm_at(now)
    }

    /// Numbers of correct and of incorrect keystrokes.
    pub fn right_wrong_char_count(chars: &[Char]) -> (r: (usize, usize))
        ensures
            r.0 == correct_count(chars@, chars@.len() as int),
            r.0 + r.1 == chars@.len(),
    {
        let mut right: usize = 0;
        let mut wrong: usize = 0;
        let mut k: usize = 0;
        while k < chars.len()
            invariant
                k <= chars@.len(),
                right == correct_count(chars@, k as int),
                right + wrong == k,
            decreases chars@.len() - k,
        {
            if chars[k].is_ok() {
                right += 1;
            } else {
                wrong += 1;
            }
            k += 1;
        }
        (right, wrong)
    }

    /// Accuracy in hundredths of a percent (10000 is every keystroke correct),
    /// rounded; 0 before any keystroke.
    pub fn accuracy(&self) -> (r: u64)
        ensures
            r == accuracy_of(self.chars@),
    {
        let (right, _wrong) = Self::right_wrong_char_count(self.chars.as_slice());
        let total = self.chars.len();
        if total == 0 {
            return 0;
        }
        let t = total as u128;
        let x = right as u128 * 10000;
        assert(x <= t * 10000) by (nonlinear_arith)
            requires
                x == right * 10000,
                right <= t,
        ;
        assert((2 * x + t) / (2 * t) <= 10000) by (nonlinear_arith)
            requires
                x <= t * 10000,
                t > 0,
        ;
        ((2 * x + t) / (2 * t)) as u64
    }

    /// The average words per minute of each word, and the positions mistyped
    /// at least once (each once, in the order of their first mistake).
    pub fn wpm_and_error_indexes_for_each_char(chars: &[Char]) -> (r: (Vec<usize>, Vec<usize>))
        ensures
            r.0@.len() == word_series(chars@).len(),
            forall|w: int| 0 <= w < r.0@.len() ==> r.0@[w] == word_series(chars@)[w],
            r.1@.no_duplicates(),
            forall|i: usize| r.1@.contains(i) <==> mistyped(chars@, i),
    {
        let n = chars.len();
        let mut sums: Vec<u128> = Vec::new();
        let mut counts: Vec<usize> = Vec::new();
        sums.push(0);
        counts.push(0);
        let mut cur: usize = 0;
        let mut k: usize = 0;
        while k < n
            invariant
                n == chars@.len(),
                k <= n,
                sums@.len() == counts@.len(),
                sums@.len() == 1 + spaces_upto(chars@, k as int),
                cur < sums@.len(),
                k == 0 ==> cur == 0,
                k > 0 ==> cur == word_of(chars@, k as int),
                forall|w: int|
                    0 <= w < sums@.len() ==> sums@[w] == word_wpm_sum(chars@, w, k as int)
                        && counts@[w] == word_len(chars@, w, k as int),
                forall|w: int|
                    0 <= w < sums@.len() ==> counts@[w] <= k && sums@[w] <= 12000 * counts@[w],
                forall|w: int|
                    w > cur ==> word_wpm_sum(chars@, w, k as int) == 0 && word_len(
                        chars@,
                        w,
                        k as int,
                    ) == 0,
            decreases n - k,
        {
            let c = chars[k];
            let ghost old_sums = sums@;
            let ghost old_counts = counts@;
            let ghost old_cur = cur;
            let ghost inst_k: nat = if k > 0 {
                char_wpm(c.diff)
            } else {
                0
            };
            if k > 0 {
                let d = c.diff as u128;
                let inst: u128 = if d == 0 {
                    0
                } else {
                    (24000 + d) / (2 * d)
                };
                assert(inst <= 12000) by (nonlinear_arith)
                    requires
                        d == 0 ==> inst == 0,
                        d > 0 ==> inst == (24000 + d) / (2 * d),
                ;
                assert(sums@[cur as int] + inst <= 12000 * (counts@[cur as int] + 1)) by (nonlinear_arith)
                    requires
                        sums@[cur as int] <= 12000 * counts@[cur as int],
                        inst <= 12000,
                ;
                assert(12000 * (counts@[cur as int] + 1) <= 12000 * (usize::MAX as int)) by (nonlinear_arith)
                    requires
                        counts@[cur as int] < usize::MAX,
                ;
                sums.set(cur, sums[cur] + inst);
                counts.set(cur, counts[cur] + 1);
            }
            if c.is_char(' ') {
                sums.push(0);
                counts.push(0);
                // a keystroke after the first moves on to the word just opened
                if k > 0 && cur < sums.len() - 1 {
                    cur += 1;
                }
            }
            proof {
                let next = k as int + 1;
                assert forall|w: int|
                    0 <= w < sums@.len() implies sums@[w] == word_wpm_sum(chars@, w, next)
                        && counts@[w] == word_len(chars@, w, next) by {
                    if w < old_sums.len() {
                        if k > 0 && w == old_cur {
                            assert(sums@[w] == old_sums[w] + inst_k);
                        } else {
                            assert(sums@[w] == old_sums[w]);
                        }
                    } else {
                        assert(w > old_cur);
                    }
                }
                assert forall|w: int| w > cur implies word_wpm_sum(chars@, w, next) == 0
                    && word_len(chars@, w, next) == 0 by {
                    if k > 0 {
                        assert(w > old_cur);
                        assert(word_wpm_sum(chars@, w, k as int) == 0);
                        assert(word_len(chars@, w, k as int) == 0);
                        assert(word_of(chars@, k as int) != w);
                    }
                }
            }
            k += 1;
        }
        let mut wpms: Vec<usize> = Vec::new();
        let mut w: usize = 0;
        while w < sums.len()
            invariant
                n == chars@.len(),
                sums@.len() == counts@.len(),
                sums@.len() == word_series(chars@).len(),
                w <= sums@.len(),
                wpms@.len() == w,
                forall|v: int|
                    0 <= v < sums@.len() ==> sums@[v] == word_wpm_sum(chars@, v, n as int)
                        && counts@[v] == word_len(chars@, v, n as int),
                forall|v: int| 0 <= v < sums@.len() ==> sums@[v] <= 12000 * counts@[v],
                forall|v: int| 0 <= v < w ==> wpms@[v] == word_series(chars@)[v],
            decreases sums@.len() - w,
        {
            let avg: u128 = if counts[w] == 0 {
                0
            } else {
                sums[w] / (counts[w] as u128)
            };
            assert(avg <= 12000) by (nonlinear_arith)
                requires
                    counts@[w as int] == 0 ==> avg == 0,
                    counts@[w as int] > 0 ==> avg as int == (sums@[w as int] as int) / (counts@[w as int] as int),
                    sums@[w as int] <= 12000 * counts@[w as int],
            ;
            wpms.push(avg as usize);
            w += 1;
        }
        let errors = Self::mistyped_positions(chars);
        (wpms, errors)
    }

    /// The positions mistyped at least once, each once, in the order of their
    /// first mistake.
    pub fn mistyped_positions(chars: &[Char]) -> (r: Vec<usize>)
        ensures
            r@.no_duplicates(),
            forall|i: usize| r@.contains(i) <==> mistyped(chars@, i),
    {
        let mut errors: Vec<usize> = Vec::new();
        let mut k: usize = 0;
        while k < chars.len()
            invariant
                k <= chars@.len(),
                errors@.no_duplicates(),
                forall|i: usize|
                    errors@.contains(i) <==> exists|j: int|
                        0 <= j < k && #[trigger] chars@[j].actual is Some && chars@[j].index == i,
            decreases chars@.len() - k,
        {
            let c = chars[k];
            let ghost old_errors = errors@;
            let ghost pushed = false;
            if c.actual.is_some() && !contains_index(&errors, c.index) {
                errors.push(c.index);
                proof {
                    pushed = true;
                }
            }
            assert(pushed ==> errors@ == old_errors.push(c.index));
            assert(!pushed ==> errors@ == old_errors);
            assert forall|i: usize|
                errors@.contains(i) <==> exists|j: int|
                    0 <= j < k + 1 && #[trigger] chars@[j].actual is Some && chars@[j].index
                        == i by {
                if exists|j: int|
                    0 <= j < k + 1 && #[trigger] chars@[j].actual is Some && chars@[j].index == i {
                    let j = choose|j: int|
                        0 <= j < k + 1 && #[trigger] chars@[j].actual is Some && chars@[j].index
                            == i;
                    if j < k {
                        assert(old_errors.contains(i));
                        let m = choose|m: int| 0 <= m < old_errors.len() && old_errors[m] == i;
                        assert(errors@[m] == i);
                    } else if pushed {
                        assert(errors@[old_errors.len() as int] == i);
                    }
                }
                if errors@.contains(i) {
                    let m = choose|m: int| 0 <= m < errors@.len() && errors@[m] == i;
                    if m < old_errors.len() {
                        assert(old_errors[m] == i);
                        assert(old_errors.contains(i));
                    } else {
                        assert(chars@[k as int].actual is Some && chars@[k as int].index == i);
                    }
                }
            }
            k += 1;
        }
        errors
    }

    /// Number of distinct positions typed correctly at least once.
    pub fn distinct_correct_count(chars: &[Char]) -> (r: usize)
        ensures
            r == distinct_correct(chars@, chars@.len() as int),
    {
        let mut seen: Vec<usize> = Vec::new();
        let mut k: usize = 0;
        while k < chars.len()
            invariant
                k <= chars@.len(),
                seen@.len() == distinct_correct(chars@, k as int),
                distinct_correct(chars@, k as int) <= k,
                forall|i: usize|
                    seen@.contains(i) <==> exists|j: int|
                        0 <= j < k && #[trigger] chars@[j].actual is None && chars@[j].index == i,
            decreases chars@.len() - k,
        {
            let c = chars[k];
            let ghost old_seen = seen@;
            let ghost pushed = false;
            if c.actual.is_none() {
                let found = contains_index(&seen, c.index);
                if !found {
                    assert forall|j: int| 0 <= j < k implies !(#[trigger] chars@[j].actual is None
                        && chars@[j].index == chars@[k as int].index) by {
                        if chars@[j].actual is None && chars@[j].index == c.index {
                            assert(seen@.contains(c.index));
                        }
                    }
                    seen.push(c.index);
                    proof {
                        pushed = true;
                    }
                } else {
                    let ghost w = choose|j: int|
                        0 <= j < k && #[trigger] chars@[j].actual is None && chars@[j].index
                            == c.index;
                    assert(!first_correct_at(chars@, k as int)) by {
                        assert(chars@[w].actual is None && chars@[w].index == chars@[k as int].index);
                    }
                }
            }
            assert(pushed ==> seen@ == old_seen.push(c.index));
            assert(!pushed ==> seen@ == old_seen);
            assert forall|i: usize|
                seen@.contains(i) <==> exists|j: int|
                    0 <= j < k + 1 && #[trigger] chars@[j].actual is None && chars@[j].index
                        == i by {
                if exists|j: int|
                    0 <= j < k + 1 && #[trigger] chars@[j].actual is None && chars@[j].index == i {
                    let j = choose|j: int|
                        0 <= j < k + 1 && #[trigger] chars@[j].actual is None && chars@[j].index
                            == i;
                    if j < k {
                        assert(old_seen.contains(i));
                        let m = choose|m: int| 0 <= m < old_seen.len() && old_seen[m] == i;
                        assert(seen@[m] == i);
                    } else if pushed {
                        assert(seen@[old_seen.len() as int] == i);
                    }
                }
                if seen@.contains(i) {
                    let m = choose|m: int| 0 <= m < seen@.len() && seen@[m] == i;
                    if m < old_seen.len() {
                        assert(old_seen[m] == i);
                        assert(old_seen.contains(i));
                    } else {
                        assert(chars@[k as int].actual is None && chars@[k as int].index == i);
                    }
                }
            }
            k += 1;
        }
        seen.len()
    }
}

fn contains_index(v: &Vec<usize>, x: usize) -> (r: bool)
    ensures
        r == v@.contains(x),
{
    let mut i: usize = 0;
    while i < v.len()
        invariant
            i <= v@.len(),
            forall|j: int| 0 <= j < i ==> v@[j] != x,
        decreases v@.len() - i,
    {
        if v[i] == x {
            assert(v@[i as int] == x);
            return true;
        }
        i += 1;
    }
    false
}

} // verus!
