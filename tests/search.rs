use typ::search::{add_to_category, format_input, CATEGORY_SEPARATOR};

fn chars(s: &str) -> Vec<char> {
    s.chars().collect()
}

fn strings(words: &[&str]) -> Vec<String> {
    words.iter().map(|w| w.to_string()).collect()
}

#[test]
fn query_words() {
    assert_eq!(format_input(&chars("")), Vec::<String>::new());
    assert_eq!(format_input(&chars("dark theme")), strings(&["dark", "theme"]));
    assert_eq!(format_input(&chars("ab  c")), strings(&["ab", "", "c"]));
    assert_eq!(format_input(&chars("ab ")), strings(&["ab"]));
    assert_eq!(format_input(&chars(" a")), strings(&["", "a"]));
    assert_eq!(format_input(&chars("   ")), strings(&["", "", ""]));
}

#[test]
fn entries_match_every_word() {
    assert!(typ::search::matches(&strings(&["dra", "ula"]), "themes dracula"));
    assert!(!typ::search::matches(&strings(&["dra", "nord"]), "themes dracula"));
    assert!(typ::search::matches(&[], "anything"));
    assert!(typ::search::matches(&strings(&[""]), ""));
    assert!(!typ::search::matches(&strings(&["x"]), ""));
}

#[test]
fn category_labels() {
    let expected = format!("themes{} nord", CATEGORY_SEPARATOR);
    assert_eq!(add_to_category(Some("themes"), Some("nord")), Some(expected));
    assert_eq!(add_to_category(None, Some("nord")), Some("nord".to_string()));
    assert_eq!(add_to_category(Some("themes"), None), Some("themes".to_string()));
    assert_eq!(add_to_category(None, None), None);
}
