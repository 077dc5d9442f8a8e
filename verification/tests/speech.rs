use wps::speech::{hello, hello_message, MAX_ASCII_NAME_CHARS, MAX_NAME_CHARS};

const FERRIS: &str = r#"
        \
         \
            _~^~^~_
        \) /  o o  \ (/
          '_   -   _'
          / '-----' \
"#;

#[test]
fn hello_message_prefixes_greeting() {
    assert_eq!(hello_message("Deno"), "Hello Deno");
    assert_eq!(hello_message(""), "Hello ");
    assert_eq!(hello_message("世界"), "Hello 世界");
}

#[test]
fn hello_draws_one_line_bubble() {
    let speech = String::from_utf8(hello("Deno".to_string())).unwrap();
    let expected = format!(" ____________\n< Hello Deno >\n ------------{}", FERRIS);
    assert_eq!(speech, expected);
}

#[test]
fn hello_with_several_words_stays_on_one_line() {
    let speech = String::from_utf8(hello("fellow Rustaceans!".to_string())).unwrap();
    let top = " ".to_string() + &"_".repeat(26) + "\n";
    let bottom = " ".to_string() + &"-".repeat(26);
    let expected = format!("{}< Hello fellow Rustaceans! >\n{}{}", top, bottom, FERRIS);
    assert_eq!(speech, expected);
}

#[test]
fn hello_with_empty_name_drops_trailing_space() {
    let speech = String::from_utf8(hello(String::new())).unwrap();
    let expected = format!(" _______\n< Hello >\n -------{}", FERRIS);
    assert_eq!(speech, expected);
}

#[test]
fn hello_with_newline_draws_two_line_bubble() {
    let speech = String::from_utf8(hello("a\nb".to_string())).unwrap();
    let expected = format!(" _________\n/ Hello a \\\n\\ b       /\n ---------{}", FERRIS);
    assert_eq!(speech, expected);
}

#[test]
fn hello_ends_with_ferris_for_long_name() {
    let name = "x".repeat(MAX_NAME_CHARS);
    let speech = hello(name.clone());
    assert!(speech.ends_with(FERRIS.as_bytes()));
    assert_eq!(speech[0], b' ');
    let text = String::from_utf8(speech).unwrap();
    assert!(text.contains(&format!("< Hello {} >", name)));
}

#[test]
fn hello_long_ascii_name_stays_on_one_line() {
    let mut name = "ab ".repeat(MAX_ASCII_NAME_CHARS / 3);
    while name.len() < MAX_ASCII_NAME_CHARS {
        name.push('z');
    }
    assert_eq!(name.len(), MAX_ASCII_NAME_CHARS);
    let text = String::from_utf8(hello(name.clone())).unwrap();
    let width = MAX_ASCII_NAME_CHARS + 6;
    let top = " ".to_string() + &"_".repeat(width + 2) + "\n";
    assert!(text.starts_with(&top));
    assert!(text.contains(&format!("< Hello {} >\n", name)));
    assert!(text.ends_with(FERRIS));
}

#[test]
fn hello_long_wide_name_wraps_without_panic() {
    let name = "世界 ".repeat(MAX_NAME_CHARS / 3);
    let speech = hello(name);
    assert!(speech.ends_with(FERRIS.as_bytes()));
    assert_eq!(speech[0], b' ');
}
