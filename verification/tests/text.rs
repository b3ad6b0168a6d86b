use sorcerer::text::{none_if_empty, same_text};

#[test]
fn none_if_empty_of_the_empty_text_is_none() {
    assert_eq!(none_if_empty(""), None);
}

#[test]
fn none_if_empty_keeps_a_text_that_holds_something() {
    assert_eq!(none_if_empty("0x1234"), Some("0x1234"));
    assert_eq!(none_if_empty(" "), Some(" "));
}

#[test]
fn texts_are_the_same_when_they_hold_the_same_characters() {
    assert!(same_text("", ""));
    assert!(same_text("spell-1", "spell-1"));
    assert!(!same_text("spell-1", "spell-2"));
    assert!(!same_text("spell", "spell "));
    assert!(!same_text("Spell", "spell"));
}
