use rust_book::text::{
    calculate_length, change, first_word, gives_ownership, last_char_of_first_line, longest,
    pig_latin, takes_and_gives_back, white_space,
};

#[test]
fn pig_latin_sentence() {
    assert_eq!(
        pig_latin("zealy Burak from Italy and Paris"),
        "ealy-zay urak-Bay rom-fay taly-Iay and-hay aris-Pay"
    );
}

#[test]
fn pig_latin_edges() {
    assert_eq!(pig_latin(""), "");
    assert_eq!(pig_latin("   "), "");
    assert_eq!(pig_latin("  apple \t pie\n"), "apple-hay ie-pay");
    assert_eq!(pig_latin("a b"), "a-hay -bay");
}

#[test]
fn white_space_characters() {
    assert!(white_space(' '));
    assert!(white_space('\t'));
    assert!(white_space('\u{3000}'));
    assert!(!white_space('x'));
    assert!(!white_space('\u{200b}'));
}

#[test]
fn first_word_cases() {
    assert_eq!(first_word("hello world"), "hello");
    assert_eq!(first_word("hello"), "hello");
    assert_eq!(first_word(" lead"), "");
    assert_eq!(first_word("héllo wörld"), "héllo");
    assert_eq!(first_word(""), "");
}

#[test]
fn last_char_of_first_line_cases() {
    assert_eq!(last_char_of_first_line("testts"), Some('s'));
    assert_eq!(last_char_of_first_line("ab\ncd"), Some('b'));
    assert_eq!(last_char_of_first_line("ab\r\ncd"), Some('b'));
    assert_eq!(last_char_of_first_line(""), None);
    assert_eq!(last_char_of_first_line("\nabc"), None);
    assert_eq!(last_char_of_first_line("\r\nabc"), None);
}

#[test]
fn longest_prefers_more_bytes() {
    assert_eq!(longest("long string is long", "xyz"), "long string is long");
    assert_eq!(longest("ab", "cd"), "cd");
    assert_eq!(longest("a", "bc"), "bc");
}

#[test]
fn lengths_and_ownership() {
    assert_eq!(calculate_length(&String::from("hello")), 5);
    assert_eq!(calculate_length(&String::from("Здравствуйте")), 24);
    let mut s = String::from("hello");
    change(&mut s);
    assert_eq!(s, "hello, world");
    assert_eq!(gives_ownership(), "yours");
    assert_eq!(takes_and_gives_back(String::from("hello")), "hello");
}
