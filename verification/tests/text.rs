use lox_interpreter::text::{chars_of, push_decimal, spells, text_of};

#[test]
fn characters_of_a_string() {
    assert_eq!(chars_of(""), Vec::<char>::new());
    assert_eq!(chars_of("a£☺"), vec!['a', '£', '☺']);
}

#[test]
fn text_of_a_range_of_characters() {
    let chars = chars_of("hello, world");
    assert_eq!(text_of(&chars, 0, 5), "hello");
    assert_eq!(text_of(&chars, 7, 12), "world");
    assert_eq!(text_of(&chars, 3, 3), "");
    assert_eq!(text_of(&chars, 0, 12), "hello, world");
}

#[test]
fn range_of_characters_spells_a_word() {
    let chars = chars_of("if iffy");
    assert!(spells(&chars, 0, 2, "if"));
    assert!(spells(&chars, 3, 5, "if"));
    assert!(!spells(&chars, 3, 7, "if"));
    assert!(!spells(&chars, 0, 1, "if"));
    assert!(!spells(&chars, 1, 3, "if"));
    assert!(spells(&chars, 2, 2, ""));
}

#[test]
fn decimal_numbers() {
    for (n, expected) in [
        (0, "0"),
        (7, "7"),
        (10, "10"),
        (65, "65"),
        (1000, "1000"),
        (90210, "90210"),
        (4294967295, "4294967295"),
    ] {
        let mut text = String::from("line ");
        push_decimal(&mut text, n);
        assert_eq!(text, format!("line {}", expected));
    }
}
