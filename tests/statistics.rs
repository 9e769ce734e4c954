use typ::statistics::{Char, TestStatistics};

const T0: u64 = 1_700_000_000_000;

#[test]
fn cpm() {
    let mut statistics = TestStatistics::new();
    let chars = ['a', 'b', 'c', 'd', 'f', 'g', 'h', 'i', 'j', 'k'];

    for (i, char) in chars.iter().enumerate() {
        statistics.new_char_at(i, *char, *char, T0);
    }

    statistics.end_at(T0 + 5000);
    assert_eq!(statistics.cpm(), 120);
}

#[test]
fn accuracy() {
    let mut statistics = TestStatistics::new();
    let right_chars = ['a', 'b', 'c', 'd', 'f', 'g', 'h', 'i', 'j', 'k'];
    let right_chars_len = right_chars.len();

    for (i, char) in right_chars.iter().enumerate() {
        statistics.new_char_at(i, *char, *char, T0);
    }

    let wrong_chars = ['l', 'm', 'n', 'o', 'p'];

    for (i, char) in wrong_chars.iter().enumerate() {
        statistics.new_char_at(i + right_chars_len, *char, 'a', T0);
    }

    statistics.end_at(T0 + 5000);
    assert_eq!(format!("{:.2}", statistics.accuracy() as f64 / 100.0), "66.67".to_string());
}

#[test]
fn ten_correct_keystrokes_over_five_seconds() {
    let mut statistics = TestStatistics::new();
    for i in 0..10usize {
        statistics.new_char_at(i, 'a', 'a', T0 + 500 * i as u64);
    }
    statistics.end_at(T0 + 5000);
    assert_eq!(statistics.cpm(), 120);
    assert_eq!(statistics.wpm(), 24);
    assert_eq!(statistics.cpm_at(0), 120);
    assert_eq!(statistics.wpm_at(0), 24);
}

#[test]
fn cpm_counts_a_corrected_position_once() {
    let mut statistics = TestStatistics::new();
    statistics.new_char_at(0, 'a', 'a', T0);
    statistics.new_char_at(1, 'x', 'b', T0 + 100);
    statistics.new_char_at(1, 'b', 'b', T0 + 200);
    statistics.new_char_at(1, 'b', 'b', T0 + 300);
    statistics.end_at(T0 + 60_000);
    assert_eq!(TestStatistics::distinct_correct_count(&statistics.chars), 2);
    assert_eq!(statistics.cpm(), 2);
}

#[test]
fn cpm_rounds_to_nearest() {
    let mut statistics = TestStatistics::new();
    for i in 0..3usize {
        statistics.new_char_at(i, 'a', 'a', T0);
    }
    // 3 characters in 7 seconds: 25.714... per minute
    statistics.end_at(T0 + 7000);
    assert_eq!(statistics.cpm(), 26);
    assert_eq!(statistics.wpm(), 5);
}

#[test]
fn cpm_is_zero_before_start_and_without_elapsed_time() {
    let mut statistics = TestStatistics::new();
    assert_eq!(statistics.cpm(), 0);
    assert_eq!(statistics.wpm(), 0);
    statistics.new_char_at(0, 'a', 'a', T0);
    statistics.end_at(T0);
    assert_eq!(statistics.cpm(), 0);
}

#[test]
fn accuracy_is_zero_without_keystrokes() {
    let statistics = TestStatistics::new();
    assert_eq!(statistics.accuracy(), 0);
}

#[test]
fn accuracy_counts_every_keystroke() {
    let mut statistics = TestStatistics::new();
    statistics.new_char_at(0, 'x', 'a', T0);
    statistics.new_char_at(0, 'a', 'a', T0 + 10);
    statistics.new_char_at(1, 'b', 'b', T0 + 20);
    assert_eq!(TestStatistics::right_wrong_char_count(&statistics.chars), (2, 1));
    assert_eq!(statistics.accuracy(), 6667);
}

#[test]
fn keystroke_delays() {
    let mut statistics = TestStatistics::new();
    statistics.start_at(T0);
    statistics.new_char_at(0, 'a', 'a', T0 + 250);
    statistics.new_char_at(1, 'x', 'b', T0 + 400);
    // a clock that went backwards gives no delay
    statistics.new_char_at(2, 'c', 'c', T0 + 300);
    assert_eq!(statistics.chars.len(), 3);
    assert_eq!(statistics.chars[0], Char::new(250, 0, 'a', None));
    assert_eq!(statistics.chars[1], Char::new(150, 1, 'x', Some('b')));
    assert_eq!(statistics.chars[2].diff, 0);
    assert_eq!(statistics.started, Some(T0));
    assert_eq!(statistics.last_char_typed, Some(T0 + 300));
}

#[test]
fn first_keystroke_starts_the_clock() {
    let mut statistics = TestStatistics::new();
    statistics.new_char_at(0, 'a', 'a', T0 + 42);
    assert_eq!(statistics.started, Some(T0 + 42));
    assert_eq!(statistics.chars[0].diff, 0);
}

#[test]
fn reset_forgets_everything() {
    let mut statistics = TestStatistics::new();
    statistics.new_char_at(0, 'a', 'a', T0);
    statistics.end_at(T0 + 1);
    statistics.reset();
    assert_eq!(statistics.started, None);
    assert_eq!(statistics.ended, None);
    assert_eq!(statistics.last_char_typed, None);
    assert!(statistics.chars.is_empty());
}

#[test]
fn char_queries() {
    let ok = Char::new(5, 3, 'a', None);
    let wrong = Char::new(5, 4, 'x', Some(' '));
    assert!(ok.is_ok() && !ok.is_error());
    assert!(wrong.is_error() && !wrong.is_ok());
    assert!(ok.is_char('a') && !ok.is_char('x'));
    assert!(wrong.is_char(' ') && !wrong.is_char('x'));
}

#[test]
fn per_word_series() {
    let mut statistics = TestStatistics::new();
    // "ab cd": the first keystroke is left out of the series
    statistics.new_char_at(0, 'a', 'a', T0);
    statistics.new_char_at(1, 'b', 'b', T0 + 100);
    statistics.new_char_at(2, ' ', ' ', T0 + 200);
    statistics.new_char_at(3, 'c', 'c', T0 + 300);
    statistics.new_char_at(4, 'd', 'd', T0 + 500);
    let (wpms, errors) = TestStatistics::wpm_and_error_indexes_for_each_char(&statistics.chars);
    assert_eq!(wpms, vec![120, 90]);
    assert!(errors.is_empty());
}

#[test]
fn per_word_series_with_errors_and_empty_words() {
    let mut statistics = TestStatistics::new();
    // a mistyped space in "a b": the expected character decides the word
    statistics.new_char_at(0, 'a', 'a', T0);
    statistics.new_char_at(1, 'x', ' ', T0 + 40);
    statistics.new_char_at(1, 'y', ' ', T0 + 80);
    statistics.new_char_at(2, 'z', 'b', T0 + 80);
    let (wpms, errors) = TestStatistics::wpm_and_error_indexes_for_each_char(&statistics.chars);
    // word 0: one keystroke after 40 ms (300); then word 1: one after 40 ms (300);
    // then word 2: one keystroke without delay (0)
    assert_eq!(wpms, vec![300, 300, 0]);
    assert_eq!(errors, vec![1, 2]);
}

#[test]
fn per_word_series_without_keystrokes() {
    let (wpms, errors) = TestStatistics::wpm_and_error_indexes_for_each_char(&[]);
    assert_eq!(wpms, vec![0]);
    assert!(errors.is_empty());
}

#[test]
fn mistyped_positions_include_the_first_keystroke() {
    let chars = vec![
        Char::new(0, 0, 'x', Some('a')),
        Char::new(10, 0, 'y', Some('a')),
        Char::new(10, 3, 'q', Some('w')),
    ];
    assert_eq!(TestStatistics::mistyped_positions(&chars), vec![0, 3]);
}
