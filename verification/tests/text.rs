use luascan::text::{ends_with_char, holds_char, holds_text, same_text, starts_with_pair};

#[test]
fn texts_are_compared_exactly() {
    assert!(same_text(&"lua".to_string(), "lua"));
    assert!(!same_text(&"Lua".to_string(), "lua"));
    assert!(!same_text(&"lua ".to_string(), "lua"));
    assert!(same_text(&String::new(), ""));
}

#[test]
fn a_list_holds_a_text_if_one_entry_is_equal() {
    let list = vec!["a".to_string(), "bc".to_string(), "d".to_string()];
    assert!(holds_text(&list, "a"));
    assert!(holds_text(&list, "bc"));
    assert!(holds_text(&list, "d"));
    assert!(!holds_text(&list, "b"));
    assert!(!holds_text(&list, ""));
    assert!(!holds_text(&Vec::new(), "a"));
}

#[test]
fn the_last_character_is_found() {
    assert!(ends_with_char("/ws/", '/'));
    assert!(!ends_with_char("/ws", '/'));
    assert!(!ends_with_char("", '/'));
    assert!(ends_with_char("caf\u{e9}", '\u{e9}'));
    assert!(ends_with_char("/", '/'));
}

#[test]
fn a_character_is_found_wherever_it_stands() {
    assert!(holds_char("`", '`'));
    assert!(holds_char("abc`", '`'));
    assert!(holds_char("`abc", '`'));
    assert!(holds_char("caf\u{e9} ` x", '`'));
    assert!(holds_char("caf\u{e9}", '\u{e9}'));
    assert!(!holds_char("", '`'));
    assert!(!holds_char("abc'\"", '`'));
}

#[test]
fn the_first_two_characters_are_compared() {
    assert!(starts_with_pair("#!", '#', '!'));
    assert!(starts_with_pair("#!/bin/sh", '#', '!'));
    assert!(starts_with_pair("\u{e9}\u{e8}x", '\u{e9}', '\u{e8}'));
    assert!(!starts_with_pair("", '#', '!'));
    assert!(!starts_with_pair("#", '#', '!'));
    assert!(!starts_with_pair("!#", '#', '!'));
    assert!(!starts_with_pair(" #!", '#', '!'));
    assert!(!starts_with_pair("#x!", '#', '!'));
}
