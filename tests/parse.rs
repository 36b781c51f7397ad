use jiko::JkProgram::{JkBool, JkFloat, JkInt, JkQuotation, JkString, JkWord};
use jiko::{parse, JkError, JkParser};

#[test]
fn test_basic_parse() {
    match parse("1 2 add 3 sub false true [1 2 false]") {
        Ok(_) => (),
        Err(jkerror) => panic!("parse error: {:?}", jkerror),
    }
}

#[test]
fn test_word_parse() {
    let mut res = parse("word2").unwrap();
    assert_eq!(res.size(), 1);
    match res.pop_front() {
        Some(JkWord(w)) => assert_eq!(w, "word2"),
        None => panic!("parse error"),
        _ => panic!("parse error"),
    }
}

#[test]
fn parse_literals_in_source_order() {
    let mut res = parse("-12 3.25 true false \"hi there\" foo").unwrap();
    assert_eq!(res.size(), 6);
    assert!(matches!(res.pop_front(), Some(JkInt(-12))));
    match res.pop_front() {
        Some(JkFloat(f)) => assert_eq!(f, "3.25"),
        _ => panic!("expected a float"),
    }
    assert!(matches!(res.pop_front(), Some(JkBool(true))));
    assert!(matches!(res.pop_front(), Some(JkBool(false))));
    match res.pop_front() {
        Some(JkString(s)) => assert_eq!(s, "hi there"),
        _ => panic!("expected a string"),
    }
    match res.pop_front() {
        Some(JkWord(w)) => assert_eq!(w, "foo"),
        _ => panic!("expected a word"),
    }
    assert!(res.pop_front().is_none());
}

#[test]
fn parse_nested_quotations() {
    let mut res = parse("[1 [2 x] ]").unwrap();
    assert_eq!(res.size(), 1);
    match res.pop_front() {
        Some(JkQuotation(mut q)) => {
            assert_eq!(q.size(), 2);
            assert!(matches!(q.pop_front(), Some(JkInt(1))));
            match q.pop_front() {
                Some(JkQuotation(inner)) => assert_eq!(inner.to_text(), "[2, x]"),
                _ => panic!("expected an inner quotation"),
            }
        }
        _ => panic!("expected a quotation"),
    }
}

#[test]
fn parse_keeps_escapes_in_string_text() {
    let mut res = parse("\"a\\\"b\"").unwrap();
    match res.pop_front() {
        Some(JkString(s)) => assert_eq!(s, "a\\\"b"),
        _ => panic!("expected a string"),
    }
}

#[test]
fn parse_words_that_look_like_numbers() {
    let res = parse("- 1.5.2 12ab -x").unwrap();
    assert_eq!(res.to_text(), "[-, 1.5.2, 12ab, -x]");
}

#[test]
fn parse_largest_and_smallest_integers() {
    let res = parse("9223372036854775807 -9223372036854775808").unwrap();
    assert_eq!(res.to_text(), "[9223372036854775807, -9223372036854775808]");
}

#[test]
fn parse_rejects_integer_out_of_range() {
    assert!(matches!(parse("9223372036854775808"), Err(JkError::ParseError)));
    assert!(matches!(parse("-9223372036854775809"), Err(JkError::ParseError)));
}

#[test]
fn parse_rejects_unbalanced_brackets() {
    assert!(matches!(parse("[1 2"), Err(JkError::ParseError)));
    assert!(matches!(parse("1 ]"), Err(JkError::ParseError)));
}

#[test]
fn parse_rejects_unterminated_string() {
    assert!(matches!(parse("\"abc"), Err(JkError::ParseError)));
    assert!(matches!(parse("\"abc\\"), Err(JkError::ParseError)));
}

#[test]
fn parse_blank_text_gives_no_atoms() {
    assert_eq!(parse("").unwrap().size(), 0);
    assert_eq!(parse("  \t ").unwrap().size(), 0);
}

#[test]
fn parser_type_parses_too() {
    let res = JkParser::parse("1 [2]").unwrap();
    assert_eq!(res.to_text(), "[1, [2]]");
}
