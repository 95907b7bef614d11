use lox_interpreter::number::{Arithmetic, Number};
use lox_interpreter::scanner::token::TokenType;
use lox_interpreter::scanner::{tokens_of, ScanResult, Scanner};

struct Ieee;

fn float(n: Number) -> f64 {
    f64::from_bits(n.bits)
}

fn number(x: f64) -> Number {
    Number { bits: x.to_bits() }
}

impl Arithmetic for Ieee {
    fn parse(&self, numeral: &str) -> Number {
        number(numeral.parse::<f64>().unwrap())
    }

    fn render(&self, n: Number) -> String {
        let x = float(n);
        if x.fract() == 0.0 {
            format!("{:.1}", x)
        } else {
            format!("{}", x)
        }
    }

    fn negate(&self, n: Number) -> Number {
        number(-float(n))
    }

    fn add(&self, a: Number, b: Number) -> Number {
        number(float(a) + float(b))
    }

    fn subtract(&self, a: Number, b: Number) -> Number {
        number(float(a) - float(b))
    }

    fn multiply(&self, a: Number, b: Number) -> Number {
        number(float(a) * float(b))
    }

    fn divide(&self, a: Number, b: Number) -> Number {
        number(float(a) / float(b))
    }

    fn is_zero(&self, n: Number) -> bool {
        float(n) == 0.0
    }

    fn equal(&self, a: Number, b: Number) -> bool {
        float(a) == float(b)
    }

    fn less(&self, a: Number, b: Number) -> bool {
        float(a) < float(b)
    }

    fn less_equal(&self, a: Number, b: Number) -> bool {
        float(a) <= float(b)
    }

    fn greater(&self, a: Number, b: Number) -> bool {
        float(a) > float(b)
    }

    fn greater_equal(&self, a: Number, b: Number) -> bool {
        float(a) >= float(b)
    }
}

/// Everything the scanner gives for a source, one line of text for each
/// token and each error, pulled from the stream one result at a time.
fn scan_lines(input: &str) -> Vec<String> {
    let scanner = Scanner::new(input);
    let mut stream = scanner.scan_tokens();
    let mut output = Vec::new();
    while let Some(sr) = stream.next() {
        let s = match sr {
            ScanResult::Ignore => continue,
            ScanResult::Result(Ok(token)) => token.render(&Ieee),
            ScanResult::Result(Err(e)) => e.render(),
        };
        output.push(s);
    }
    output
}

/// The same, collected in one call.
fn scan_all_lines(input: &str) -> Vec<String> {
    Scanner::new(input)
        .scan_all()
        .into_iter()
        .map(|r| match r {
            Ok(token) => token.render(&Ieee),
            Err(e) => e.render(),
        })
        .collect()
}

fn check(input: &str, expected: Vec<&str>) {
    let expected: Vec<String> = expected.iter().map(|s| s.to_string()).collect();
    assert_eq!(scan_lines(input), expected);
    assert_eq!(scan_all_lines(input), expected);
}

#[test]
fn reserved_word_return() {
    check(
        "return",
        vec![
            "RETURN return null",
            "EOF  null",
        ],
    );
}

#[test]
fn reserved_words_are_lower_case_only() {
    check(
        "AND FOR SUPER while this true FUN false THIS and NIL FALSE or else nil if print WHILE fun class RETURN IF return OR super TRUE ELSE for CLASS PRINT var VAR",
        vec![
            "IDENTIFIER AND null",
            "IDENTIFIER FOR null",
            "IDENTIFIER SUPER null",
            "WHILE while null",
            "THIS this null",
            "TRUE true null",
            "IDENTIFIER FUN null",
            "FALSE false null",
            "IDENTIFIER THIS null",
            "AND and null",
            "IDENTIFIER NIL null",
            "IDENTIFIER FALSE null",
            "OR or null",
            "ELSE else null",
            "NIL nil null",
            "IF if null",
            "PRINT print null",
            "IDENTIFIER WHILE null",
            "FUN fun null",
            "CLASS class null",
            "IDENTIFIER RETURN null",
            "IDENTIFIER IF null",
            "RETURN return null",
            "IDENTIFIER OR null",
            "SUPER super null",
            "IDENTIFIER TRUE null",
            "IDENTIFIER ELSE null",
            "FOR for null",
            "IDENTIFIER CLASS null",
            "IDENTIFIER PRINT null",
            "VAR var null",
            "IDENTIFIER VAR null",
            "EOF  null",
        ],
    );
}

#[test]
fn program_with_strings_and_blocks() {
    check(
        "var greeting = \"Hello\"\nif (greeting == \"Hello\") {\n    return true\n} else {\n    return false\n}",
        vec![
            "VAR var null",
            "IDENTIFIER greeting null",
            "EQUAL = null",
            "STRING \"Hello\" Hello",
            "IF if null",
            "LEFT_PAREN ( null",
            "IDENTIFIER greeting null",
            "EQUAL_EQUAL == null",
            "STRING \"Hello\" Hello",
            "RIGHT_PAREN ) null",
            "LEFT_BRACE { null",
            "RETURN return null",
            "TRUE true null",
            "RIGHT_BRACE } null",
            "ELSE else null",
            "LEFT_BRACE { null",
            "RETURN return null",
            "FALSE false null",
            "RIGHT_BRACE } null",
            "EOF  null",
        ],
    );
}

#[test]
fn program_with_loop_and_comparisons() {
    check(
        "var result = (a + b) > 7 or \"Success\" != \"Failure\" or x >= 5\nwhile (result) {\n    var counter = 0\n    counter = counter + 1\n    if (counter == 10) {\n        return nil\n    }\n}",
        vec![
            "VAR var null",
            "IDENTIFIER result null",
            "EQUAL = null",
            "LEFT_PAREN ( null",
            "IDENTIFIER a null",
            "PLUS + null",
            "IDENTIFIER b null",
            "RIGHT_PAREN ) null",
            "GREATER > null",
            "NUMBER 7 7.0",
            "OR or null",
            "STRING \"Success\" Success",
            "BANG_EQUAL != null",
            "STRING \"Failure\" Failure",
            "OR or null",
            "IDENTIFIER x null",
            "GREATER_EQUAL >= null",
            "NUMBER 5 5.0",
            "WHILE while null",
            "LEFT_PAREN ( null",
            "IDENTIFIER result null",
            "RIGHT_PAREN ) null",
            "LEFT_BRACE { null",
            "VAR var null",
            "IDENTIFIER counter null",
            "EQUAL = null",
            "NUMBER 0 0.0",
            "IDENTIFIER counter null",
            "EQUAL = null",
            "IDENTIFIER counter null",
            "PLUS + null",
            "NUMBER 1 1.0",
            "IF if null",
            "LEFT_PAREN ( null",
            "IDENTIFIER counter null",
            "EQUAL_EQUAL == null",
            "NUMBER 10 10.0",
            "RIGHT_PAREN ) null",
            "LEFT_BRACE { null",
            "RETURN return null",
            "NIL nil null",
            "RIGHT_BRACE } null",
            "RIGHT_BRACE } null",
            "EOF  null",
        ],
    );
}

#[test]
fn two_identifiers() {
    check(
        "baz bar",
        vec![
            "IDENTIFIER baz null",
            "IDENTIFIER bar null",
            "EOF  null",
        ],
    );
}

#[test]
fn identifiers_with_digits_and_underscores() {
    check(
        "_123baz f00 6ar foo bar",
        vec![
            "IDENTIFIER _123baz null",
            "IDENTIFIER f00 null",
            "NUMBER 6 6.0",
            "IDENTIFIER ar null",
            "IDENTIFIER foo null",
            "IDENTIFIER bar null",
            "EOF  null",
        ],
    );
}

#[test]
fn assignments_on_two_lines() {
    check(
        "message = \"Hello, World!\"\nnumber = 123",
        vec![
            "IDENTIFIER message null",
            "EQUAL = null",
            "STRING \"Hello, World!\" Hello, World!",
            "IDENTIFIER number null",
            "EQUAL = null",
            "NUMBER 123 123.0",
            "EOF  null",
        ],
    );
}

#[test]
fn block_with_comment_and_numbers() {
    check(
        "{\n// This is a complex test case\nstr1 = \"Test\"\nstr2 = \"Case\"\nnum1 = 100\nnum2 = 200.00\nresult = (str1 == str2) != ((num1 + num2) >= 300)\n}",
        vec![
            "LEFT_BRACE { null",
            "IDENTIFIER str1 null",
            "EQUAL = null",
            "STRING \"Test\" Test",
            "IDENTIFIER str2 null",
            "EQUAL = null",
            "STRING \"Case\" Case",
            "IDENTIFIER num1 null",
            "EQUAL = null",
            "NUMBER 100 100.0",
            "IDENTIFIER num2 null",
            "EQUAL = null",
            "NUMBER 200.00 200.0",
            "IDENTIFIER result null",
            "EQUAL = null",
            "LEFT_PAREN ( null",
            "IDENTIFIER str1 null",
            "EQUAL_EQUAL == null",
            "IDENTIFIER str2 null",
            "RIGHT_PAREN ) null",
            "BANG_EQUAL != null",
            "LEFT_PAREN ( null",
            "LEFT_PAREN ( null",
            "IDENTIFIER num1 null",
            "PLUS + null",
            "IDENTIFIER num2 null",
            "RIGHT_PAREN ) null",
            "GREATER_EQUAL >= null",
            "NUMBER 300 300.0",
            "RIGHT_PAREN ) null",
            "RIGHT_BRACE } null",
            "EOF  null",
        ],
    );
}

#[test]
fn integer_number() {
    check(
        "44",
        vec![
            "NUMBER 44 44.0",
            "EOF  null",
        ],
    );
}

#[test]
fn decimal_number() {
    check(
        "2438.6541",
        vec![
            "NUMBER 2438.6541 2438.6541",
            "EOF  null",
        ],
    );
}

#[test]
fn decimal_number_with_trailing_zeros() {
    check(
        "19.0000",
        vec![
            "NUMBER 19.0000 19.0",
            "EOF  null",
        ],
    );
}

#[test]
fn comparison_of_groups() {
    check(
        "(42+77) > 98 != (\"Success\" != \"Failure\") != (46 >= 83)",
        vec![
            "LEFT_PAREN ( null",
            "NUMBER 42 42.0",
            "PLUS + null",
            "NUMBER 77 77.0",
            "RIGHT_PAREN ) null",
            "GREATER > null",
            "NUMBER 98 98.0",
            "BANG_EQUAL != null",
            "LEFT_PAREN ( null",
            "STRING \"Success\" Success",
            "BANG_EQUAL != null",
            "STRING \"Failure\" Failure",
            "RIGHT_PAREN ) null",
            "BANG_EQUAL != null",
            "LEFT_PAREN ( null",
            "NUMBER 46 46.0",
            "GREATER_EQUAL >= null",
            "NUMBER 83 83.0",
            "RIGHT_PAREN ) null",
            "EOF  null",
        ],
    );
}

#[test]
fn string_literal() {
    check(
        "\"hello\"",
        vec![
            "STRING \"hello\" hello",
            "EOF  null",
        ],
    );
}

#[test]
fn unterminated_string_after_tokens() {
    check(
        "\"hello\" , \"unterminated",
        vec![
            "STRING \"hello\" hello",
            "COMMA , null",
            "[line 1] Error: Unterminated string.",
            "EOF  null",
        ],
    );
}

#[test]
fn string_with_tab_and_slashes() {
    check(
        "\"foo \tbar 123 // hello world!\"",
        vec![
            "STRING \"foo \tbar 123 // hello world!\" foo \tbar 123 // hello world!",
            "EOF  null",
        ],
    );
}

#[test]
fn string_concatenation_in_group() {
    check(
        "(\"baz\"+\"bar\") != \"other_string\"",
        vec![
            "LEFT_PAREN ( null",
            "STRING \"baz\" baz",
            "PLUS + null",
            "STRING \"bar\" bar",
            "RIGHT_PAREN ) null",
            "BANG_EQUAL != null",
            "STRING \"other_string\" other_string",
            "EOF  null",
        ],
    );
}

#[test]
fn single_space() {
    check(
        " ",
        vec![
            "EOF  null",
        ],
    );
}

#[test]
fn mixed_white_space() {
    check(
        " \t\n ",
        vec![
            "EOF  null",
        ],
    );
}

#[test]
fn punctuation_across_lines() {
    check(
        "{\n\t}\n((\t+-\n*))",
        vec![
            "LEFT_BRACE { null",
            "RIGHT_BRACE } null",
            "LEFT_PAREN ( null",
            "LEFT_PAREN ( null",
            "PLUS + null",
            "MINUS - null",
            "STAR * null",
            "RIGHT_PAREN ) null",
            "RIGHT_PAREN ) null",
            "EOF  null",
        ],
    );
}

#[test]
fn less_and_less_equal_across_lines() {
    check(
        "{ \t \n\t}\n((\t\n-<<=))",
        vec![
            "LEFT_BRACE { null",
            "RIGHT_BRACE } null",
            "LEFT_PAREN ( null",
            "LEFT_PAREN ( null",
            "MINUS - null",
            "LESS < null",
            "LESS_EQUAL <= null",
            "RIGHT_PAREN ) null",
            "RIGHT_PAREN ) null",
            "EOF  null",
        ],
    );
}

#[test]
fn comment_only() {
    check(
        "//Comment",
        vec![
            "EOF  null",
        ],
    );
}

#[test]
fn comment_with_unicode_after_paren() {
    check(
        "(///Unicode:£§᯽☺♣)",
        vec![
            "LEFT_PAREN ( null",
            "EOF  null",
        ],
    );
}

#[test]
fn single_slash() {
    check(
        "/",
        vec![
            "SLASH / null",
            "EOF  null",
        ],
    );
}

#[test]
fn comment_after_tokens() {
    check(
        "({(<=-+)})//Comment",
        vec![
            "LEFT_PAREN ( null",
            "LEFT_BRACE { null",
            "LEFT_PAREN ( null",
            "LESS_EQUAL <= null",
            "MINUS - null",
            "PLUS + null",
            "RIGHT_PAREN ) null",
            "RIGHT_BRACE } null",
            "RIGHT_PAREN ) null",
            "EOF  null",
        ],
    );
}

#[test]
fn greater_equal() {
    check(
        ">=",
        vec![
            "GREATER_EQUAL >= null",
            "EOF  null",
        ],
    );
}

#[test]
fn runs_of_angle_brackets() {
    check(
        "<<<=>>>=",
        vec![
            "LESS < null",
            "LESS < null",
            "LESS_EQUAL <= null",
            "GREATER > null",
            "GREATER > null",
            "GREATER_EQUAL >= null",
            "EOF  null",
        ],
    );
}

#[test]
fn mixed_angle_brackets() {
    check(
        "<=>>=>>=",
        vec![
            "LESS_EQUAL <= null",
            "GREATER > null",
            "GREATER_EQUAL >= null",
            "GREATER > null",
            "GREATER_EQUAL >= null",
            "EOF  null",
        ],
    );
}

#[test]
fn equal_signs_take_the_longest_match() {
    check(
        "(){===!}",
        vec![
            "LEFT_PAREN ( null",
            "RIGHT_PAREN ) null",
            "LEFT_BRACE { null",
            "EQUAL_EQUAL == null",
            "EQUAL = null",
            "BANG ! null",
            "RIGHT_BRACE } null",
            "EOF  null",
        ],
    );
}

#[test]
fn bang_equal() {
    check(
        "!=",
        vec![
            "BANG_EQUAL != null",
            "EOF  null",
        ],
    );
}

#[test]
fn bangs_and_equals() {
    check(
        "!!===",
        vec![
            "BANG ! null",
            "BANG_EQUAL != null",
            "EQUAL_EQUAL == null",
            "EOF  null",
        ],
    );
}

#[test]
fn bangs_in_braces() {
    check(
        "!{!}(!===)=",
        vec![
            "BANG ! null",
            "LEFT_BRACE { null",
            "BANG ! null",
            "RIGHT_BRACE } null",
            "LEFT_PAREN ( null",
            "BANG_EQUAL != null",
            "EQUAL_EQUAL == null",
            "RIGHT_PAREN ) null",
            "EQUAL = null",
            "EOF  null",
        ],
    );
}

#[test]
fn unexpected_characters_between_equals() {
    check(
        "{(!==$=#)}",
        vec![
            "LEFT_BRACE { null",
            "LEFT_PAREN ( null",
            "BANG_EQUAL != null",
            "EQUAL = null",
            "[line 1] Error: Unexpected character: $",
            "EQUAL = null",
            "[line 1] Error: Unexpected character: #",
            "RIGHT_PAREN ) null",
            "RIGHT_BRACE } null",
            "EOF  null",
        ],
    );
}

#[test]
fn single_equal() {
    check(
        "=",
        vec![
            "EQUAL = null",
            "EOF  null",
        ],
    );
}

#[test]
fn equal_equal() {
    check(
        "==",
        vec![
            "EQUAL_EQUAL == null",
            "EOF  null",
        ],
    );
}

#[test]
fn equals_in_braces() {
    check(
        "({=}){==}",
        vec![
            "LEFT_PAREN ( null",
            "LEFT_BRACE { null",
            "EQUAL = null",
            "RIGHT_BRACE } null",
            "RIGHT_PAREN ) null",
            "LEFT_BRACE { null",
            "EQUAL_EQUAL == null",
            "RIGHT_BRACE } null",
            "EOF  null",
        ],
    );
}

#[test]
fn unexpected_characters_in_parens() {
    check(
        "((#$%===))",
        vec![
            "LEFT_PAREN ( null",
            "LEFT_PAREN ( null",
            "[line 1] Error: Unexpected character: #",
            "[line 1] Error: Unexpected character: $",
            "[line 1] Error: Unexpected character: %",
            "EQUAL_EQUAL == null",
            "EQUAL = null",
            "RIGHT_PAREN ) null",
            "RIGHT_PAREN ) null",
            "EOF  null",
        ],
    );
}

#[test]
fn lone_unexpected_character() {
    check(
        "@",
        vec![
            "[line 1] Error: Unexpected character: @",
            "EOF  null",
        ],
    );
}

#[test]
fn unexpected_characters_between_punctuation() {
    check(
        ",.$(#",
        vec![
            "COMMA , null",
            "DOT . null",
            "[line 1] Error: Unexpected character: $",
            "LEFT_PAREN ( null",
            "[line 1] Error: Unexpected character: #",
            "EOF  null",
        ],
    );
}

#[test]
fn only_unexpected_characters() {
    check(
        "%#$@@",
        vec![
            "[line 1] Error: Unexpected character: %",
            "[line 1] Error: Unexpected character: #",
            "[line 1] Error: Unexpected character: $",
            "[line 1] Error: Unexpected character: @",
            "[line 1] Error: Unexpected character: @",
            "EOF  null",
        ],
    );
}

#[test]
fn unexpected_characters_among_tokens() {
    check(
        "{(.#;*@+%)}",
        vec![
            "LEFT_BRACE { null",
            "LEFT_PAREN ( null",
            "DOT . null",
            "[line 1] Error: Unexpected character: #",
            "SEMICOLON ; null",
            "STAR * null",
            "[line 1] Error: Unexpected character: @",
            "PLUS + null",
            "[line 1] Error: Unexpected character: %",
            "RIGHT_PAREN ) null",
            "RIGHT_BRACE } null",
            "EOF  null",
        ],
    );
}

#[test]
fn left_paren() {
    check(
        "(",
        vec![
            "LEFT_PAREN ( null",
            "EOF  null",
        ],
    );
}

#[test]
fn two_right_parens() {
    check(
        "))",
        vec![
            "RIGHT_PAREN ) null",
            "RIGHT_PAREN ) null",
            "EOF  null",
        ],
    );
}

#[test]
fn unbalanced_right_parens() {
    check(
        "())))",
        vec![
            "LEFT_PAREN ( null",
            "RIGHT_PAREN ) null",
            "RIGHT_PAREN ) null",
            "RIGHT_PAREN ) null",
            "RIGHT_PAREN ) null",
            "EOF  null",
        ],
    );
}

#[test]
fn nested_parens() {
    check(
        "((()())",
        vec![
            "LEFT_PAREN ( null",
            "LEFT_PAREN ( null",
            "LEFT_PAREN ( null",
            "RIGHT_PAREN ) null",
            "LEFT_PAREN ( null",
            "RIGHT_PAREN ) null",
            "RIGHT_PAREN ) null",
            "EOF  null",
        ],
    );
}

#[test]
fn right_brace() {
    check(
        "}",
        vec![
            "RIGHT_BRACE } null",
            "EOF  null",
        ],
    );
}

#[test]
fn nested_braces() {
    check(
        "{{}}",
        vec![
            "LEFT_BRACE { null",
            "LEFT_BRACE { null",
            "RIGHT_BRACE } null",
            "RIGHT_BRACE } null",
            "EOF  null",
        ],
    );
}

#[test]
fn unbalanced_braces() {
    check(
        "}{}}",
        vec![
            "RIGHT_BRACE } null",
            "LEFT_BRACE { null",
            "RIGHT_BRACE } null",
            "RIGHT_BRACE } null",
            "EOF  null",
        ],
    );
}

#[test]
fn braces_and_parens_mixed() {
    check(
        "{{)})}(",
        vec![
            "LEFT_BRACE { null",
            "LEFT_BRACE { null",
            "RIGHT_PAREN ) null",
            "RIGHT_BRACE } null",
            "RIGHT_PAREN ) null",
            "RIGHT_BRACE } null",
            "LEFT_PAREN ( null",
            "EOF  null",
        ],
    );
}

#[test]
fn plus_minus() {
    check(
        "+-",
        vec![
            "PLUS + null",
            "MINUS - null",
            "EOF  null",
        ],
    );
}

#[test]
fn doubled_single_character_tokens() {
    check(
        "++--**..,,;;",
        vec![
            "PLUS + null",
            "PLUS + null",
            "MINUS - null",
            "MINUS - null",
            "STAR * null",
            "STAR * null",
            "DOT . null",
            "DOT . null",
            "COMMA , null",
            "COMMA , null",
            "SEMICOLON ; null",
            "SEMICOLON ; null",
            "EOF  null",
        ],
    );
}

#[test]
fn single_character_tokens_in_any_order() {
    check(
        "-+;.*;,",
        vec![
            "MINUS - null",
            "PLUS + null",
            "SEMICOLON ; null",
            "DOT . null",
            "STAR * null",
            "SEMICOLON ; null",
            "COMMA , null",
            "EOF  null",
        ],
    );
}

#[test]
fn single_character_tokens_in_group() {
    check(
        "({*-+;.})",
        vec![
            "LEFT_PAREN ( null",
            "LEFT_BRACE { null",
            "STAR * null",
            "MINUS - null",
            "PLUS + null",
            "SEMICOLON ; null",
            "DOT . null",
            "RIGHT_BRACE } null",
            "RIGHT_PAREN ) null",
            "EOF  null",
        ],
    );
}

#[test]
fn empty_source_gives_only_the_end_marker() {
    check("", vec!["EOF  null"]);
}

#[test]
fn number_does_not_take_a_trailing_dot() {
    check("7.", vec!["NUMBER 7 7.0", "DOT . null", "EOF  null"]);
    check("7.x", vec!["NUMBER 7 7.0", "DOT . null", "IDENTIFIER x null", "EOF  null"]);
    check(".5", vec!["DOT . null", "NUMBER 5 5.0", "EOF  null"]);
    check("1.2.3", vec!["NUMBER 1.2 1.2", "DOT . null", "NUMBER 3 3.0", "EOF  null"]);
}

#[test]
fn fraction_holds_digits_only() {
    check("1.5abc", vec!["NUMBER 1.5 1.5", "IDENTIFIER abc null", "EOF  null"]);
    check("12.50e3", vec!["NUMBER 12.50 12.5", "IDENTIFIER e3 null", "EOF  null"]);
}

#[test]
fn reserved_word_inside_a_longer_word_is_an_identifier() {
    check("nilly", vec!["IDENTIFIER nilly null", "EOF  null"]);
    check("_or", vec!["IDENTIFIER _or null", "EOF  null"]);
    check("or_", vec!["IDENTIFIER or_ null", "EOF  null"]);
    check("classes class", vec!["IDENTIFIER classes null", "CLASS class null", "EOF  null"]);
}

#[test]
fn every_reserved_word() {
    check(
        "and class else false for fun if nil or print return super this true var while",
        vec![
            "AND and null",
            "CLASS class null",
            "ELSE else null",
            "FALSE false null",
            "FOR for null",
            "FUN fun null",
            "IF if null",
            "NIL nil null",
            "OR or null",
            "PRINT print null",
            "RETURN return null",
            "SUPER super null",
            "THIS this null",
            "TRUE true null",
            "VAR var null",
            "WHILE while null",
            "EOF  null",
        ],
    );
}

#[test]
fn comment_ends_at_the_line_feed() {
    check("// one\n+ // two\n-", vec!["PLUS + null", "MINUS - null", "EOF  null"]);
    check("/ / 1", vec!["SLASH / null", "SLASH / null", "NUMBER 1 1.0", "EOF  null"]);
}

#[test]
fn empty_string_literal() {
    check("\"\"", vec!["STRING \"\" ", "EOF  null"]);
}

#[test]
fn unexpected_character_outside_ascii() {
    check("(£)", vec![
        "LEFT_PAREN ( null",
        "[line 1] Error: Unexpected character: £",
        "RIGHT_PAREN ) null",
        "EOF  null",
    ]);
}

/// The lines that the tokens and errors of a source are on.
fn lines_of(input: &str) -> Vec<u32> {
    Scanner::new(input)
        .scan_all()
        .into_iter()
        .map(|r| match r {
            Ok(token) => token.line,
            Err(e) => e.line(),
        })
        .collect()
}

#[test]
fn line_feeds_advance_the_line_counter() {
    assert_eq!(lines_of("a\nb\n\nc"), vec![1, 2, 4, 4]);
    assert_eq!(lines_of("\n\n"), vec![3]);
    assert_eq!(lines_of("a // x\nb"), vec![1, 2, 2]);
    assert_eq!(lines_of("\r\n@"), vec![2, 2]);
}

#[test]
fn string_is_on_the_line_where_it_ends() {
    let results = Scanner::new("\"a\nb\nc\" x").scan_all();
    let lines: Vec<u32> = results.iter().map(|r| r.as_ref().unwrap().line).collect();
    assert_eq!(lines, vec![3, 3, 3]);
    let first = results[0].as_ref().unwrap();
    assert_eq!(first.typ, TokenType::String);
    assert_eq!(first.lexeme, "\"a\nb\nc\"");
    assert_eq!(first.render(&Ieee), "STRING \"a\nb\nc\" a\nb\nc");
}

#[test]
fn unterminated_string_is_reported_where_the_source_ends() {
    let lines = scan_lines("1\n\"open\n\n");
    assert_eq!(lines, vec!["NUMBER 1 1.0", "[line 4] Error: Unterminated string.", "EOF  null"]);
    assert_eq!(lines_of("1\n\"open\n\n"), vec![1, 4, 4]);
}

#[test]
fn unexpected_character_is_reported_on_its_line() {
    assert_eq!(
        scan_lines("+\n\n#"),
        vec!["PLUS + null", "[line 3] Error: Unexpected character: #", "EOF  null"]
    );
}

#[test]
fn token_sequence_ends_with_exactly_one_end_marker() {
    for input in ["", "1 + 2", "\"open", "@ # $", "// only a comment", "\n\n\n", "nil\"", "("] {
        let results = Scanner::new(input).scan_all();
        let last = results.last().unwrap().as_ref().unwrap();
        assert_eq!(last.typ, TokenType::Eof);
        assert_eq!(last.lexeme, "");
        assert!(last.literal.is_none());
        let ends = results
            .iter()
            .filter(|r| matches!(r, Ok(token) if token.typ == TokenType::Eof))
            .count();
        assert_eq!(ends, 1);
    }
}

#[test]
fn stream_is_exhausted_after_the_end_marker() {
    let scanner = Scanner::new("1");
    let mut stream = scanner.scan_tokens();
    assert!(matches!(stream.next(), Some(ScanResult::Result(Ok(_)))));
    assert!(matches!(stream.next(), Some(ScanResult::Result(Ok(token))) if token.typ == TokenType::Eof));
    assert!(stream.next().is_none());
    assert!(stream.next().is_none());
}

#[test]
fn scanner_can_be_restarted() {
    let scanner = Scanner::new("a b");
    let first = scanner.scan_all().len();
    let second = scanner.scan_all().len();
    assert_eq!(first, 3);
    assert_eq!(second, 3);
}

#[test]
fn white_space_and_comments_are_ignored_results() {
    let scanner = Scanner::new(" \t//c\n");
    let mut stream = scanner.scan_tokens();
    let mut ignored = 0;
    while let Some(r) = stream.next() {
        if matches!(r, ScanResult::Ignore) {
            ignored += 1;
        }
    }
    assert_eq!(ignored, 4);
}

#[test]
fn next_match_consumes_only_the_expected_character() {
    let scanner = Scanner::new("=>");
    let mut stream = scanner.scan_tokens();
    assert_eq!(stream.next_match('>'), None);
    assert_eq!(stream.next_match('='), Some('='));
    assert_eq!(stream.next_match('='), None);
    assert_eq!(stream.next_match('>'), Some('>'));
    assert_eq!(stream.next_match('>'), None);
}

#[test]
fn peek_next_looks_two_characters_ahead() {
    let scanner = Scanner::new("1.5");
    let mut stream = scanner.scan_tokens();
    assert_eq!(stream.peek_next(), Some('.'));
    assert_eq!(stream.next_match('1'), Some('1'));
    assert_eq!(stream.peek_next(), Some('5'));
    assert_eq!(stream.next_match('.'), Some('.'));
    assert_eq!(stream.peek_next(), None);
}

#[test]
fn tokens_of_gives_the_tokens_of_a_clean_scan() {
    let tokens = tokens_of(Scanner::new("1 + nil").scan_all()).unwrap();
    let types: Vec<TokenType> = tokens.iter().map(|t| t.typ).collect();
    assert_eq!(
        types,
        vec![TokenType::Number, TokenType::Plus, TokenType::Nil, TokenType::Eof]
    );
}

#[test]
fn tokens_of_refuses_a_scan_with_an_error() {
    assert!(tokens_of(Scanner::new("1 + @").scan_all()).is_none());
    assert!(tokens_of(Scanner::new("\"open").scan_all()).is_none());
}

#[test]
fn category_names() {
    assert_eq!(TokenType::LeftParen.name(), "LEFT_PAREN");
    assert_eq!(TokenType::BangEqual.name(), "BANG_EQUAL");
    assert_eq!(TokenType::Identifier.name(), "IDENTIFIER");
    assert_eq!(TokenType::While.name(), "WHILE");
    assert_eq!(TokenType::Eof.name(), "EOF");
}
