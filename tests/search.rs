use rust_basics::search::{find_first, find_first_a};

#[test]
fn empty_text_is_not_found() {
    assert_eq!(find_first("", 'a'), None);
}

#[test]
fn banana_first_a_at_one() {
    assert_eq!(find_first("banana", 'a'), Some(1));
}

#[test]
fn absent_character_is_not_found() {
    assert_eq!(find_first("xyz", 'a'), None);
}

#[test]
fn repeated_character_reports_first() {
    assert_eq!(find_first("aaa", 'a'), Some(0));
}

#[test]
fn last_position_is_found() {
    assert_eq!(find_first("xyza", 'a'), Some(3));
}

#[test]
fn position_counts_characters_not_bytes() {
    assert_eq!(find_first("héllo wörld", 'w'), Some(6));
    assert_eq!(find_first("日本語", '語'), Some(2));
}

#[test]
fn other_targets() {
    assert_eq!(find_first("banana", 'n'), Some(2));
    assert_eq!(find_first("banana", 'B'), None);
}

#[test]
fn repeated_calls_agree() {
    let first = find_first("mississippi", 's');
    let second = find_first("mississippi", 's');
    assert_eq!(first, second);
    assert_eq!(first, Some(2));
    let a = find_first_a(String::from("raman"));
    let b = find_first_a(String::from("raman"));
    assert_eq!(a, b);
}

#[test]
fn find_first_a_cases() {
    assert_eq!(find_first_a(String::from("raman")), Some(1));
    assert_eq!(find_first_a(String::new()), None);
    assert_eq!(find_first_a(String::from("xyz")), None);
    assert_eq!(find_first_a(String::from("Apple a")), Some(6));
}
