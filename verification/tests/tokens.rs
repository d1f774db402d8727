use jinko::error::ErrorKind;
use jinko::instruction::Operator;
use jinko::parser::tokens::{CharClass, Keyword};
use jinko::parser::{Source, Token};

#[test]
fn t_source_addresses_characters() {
    let src = Source::new("héllo");
    assert_eq!(src.len(), 5);
    assert_eq!(src.peek(1), Some('é'));
    assert_eq!(src.peek(5), None);
    assert!(src.holds(2, 'l'));
    assert!(!src.holds(9, 'l'));
    assert_eq!(src.slice(1, 3), "él");
    assert_eq!(src.rest(2), "llo");
    assert_eq!(src.rest(5), "");
    assert_eq!(src.text(), "héllo");
}

#[test]
fn t_char_classes() {
    assert!(CharClass::Letter.contains('a'));
    assert!(CharClass::Letter.contains('Z'));
    assert!(!CharClass::Letter.contains('0'));
    assert!(!CharClass::Letter.contains('_'));
    assert!(!CharClass::Letter.contains('é'));
    // U+0141 ends in the byte 0x41, which is `A`
    assert!(!CharClass::Letter.contains('\u{141}'));
    assert!(CharClass::Digit.contains('0'));
    assert!(CharClass::Digit.contains('9'));
    assert!(!CharClass::Digit.contains('a'));
    assert!(!CharClass::Digit.contains('\u{663}'));
    // U+0130 ends in the byte 0x30, which is `0`
    assert!(!CharClass::Digit.contains('\u{130}'));
    assert!(CharClass::Word.contains('_'));
    assert!(CharClass::Word.contains('q'));
    assert!(CharClass::Word.contains('7'));
    assert!(!CharClass::Word.contains('-'));
    assert!(CharClass::Whitespace.contains(' '));
    assert!(CharClass::Whitespace.contains('\t'));
    assert!(CharClass::Whitespace.contains('\n'));
    assert!(CharClass::Whitespace.contains('\r'));
    assert!(!CharClass::Whitespace.contains('x'));
    assert!(CharClass::Line.contains('x'));
    assert!(!CharClass::Line.contains('\n'));
    assert!(CharClass::Quoted.contains('\''));
    assert!(!CharClass::Quoted.contains('"'));
}

#[test]
fn t_run_stops_at_the_first_stranger() {
    let src = Source::new("123abc");
    assert_eq!(Token::run(&src, 0, CharClass::Digit), 3);
    assert_eq!(Token::run(&src, 3, CharClass::Digit), 3);
    assert_eq!(Token::run(&src, 0, CharClass::Word), 6);
    assert_eq!(Token::run(&src, 6, CharClass::Word), 6);
    assert_eq!(Token::run(&src, 40, CharClass::Word), 40);
}

#[test]
fn t_symbol_and_tag() {
    let src = Source::new("(->)");
    assert_eq!(Token::symbol(&src, 0, '('), Some(1));
    assert_eq!(Token::symbol(&src, 0, ')'), None);
    assert_eq!(Token::symbol(&src, 4, ')'), None);
    assert_eq!(Token::tag(&src, 1, "->"), Some(3));
    assert_eq!(Token::tag(&src, 0, "->"), None);
    assert_eq!(Token::tag(&src, 3, "->"), None);
    assert_eq!(Token::tag(&src, 2, ""), Some(2));
}

#[test]
fn t_keyword_stands_alone() {
    assert_eq!(Token::keyword(&Source::new("mut x"), 0, Keyword::Mut), Some(3));
    assert_eq!(Token::keyword(&Source::new("mut"), 0, Keyword::Mut), Some(3));
    assert_eq!(Token::keyword(&Source::new("mut_x"), 0, Keyword::Mut), None);
    assert_eq!(Token::keyword(&Source::new("mutable"), 0, Keyword::Mut), None);
    assert_eq!(Token::keyword(&Source::new("mut9"), 0, Keyword::Mut), None);
    assert_eq!(Token::keyword(&Source::new("else{"), 0, Keyword::Else), Some(4));
    assert_eq!(Token::keyword(&Source::new("a in b"), 2, Keyword::In), Some(4));
    assert_eq!(Token::keyword(&Source::new("a in b"), 2, Keyword::Incl), None);
}

#[test]
fn t_keywords_are_spelled_as_written() {
    assert_eq!(Keyword::Func.word(), "func");
    assert_eq!(Keyword::Ext.word(), "ext");
    assert_eq!(Keyword::Test.word(), "test");
    assert_eq!(Keyword::Mock.word(), "mock");
    assert_eq!(Keyword::Type.word(), "type");
    assert_eq!(Keyword::If.word(), "if");
    assert_eq!(Keyword::Else.word(), "else");
    assert_eq!(Keyword::Audit.word(), "audit");
    assert_eq!(Keyword::Loop.word(), "loop");
    assert_eq!(Keyword::While.word(), "while");
    assert_eq!(Keyword::For.word(), "for");
    assert_eq!(Keyword::In.word(), "in");
    assert_eq!(Keyword::Incl.word(), "incl");
    assert_eq!(Keyword::As.word(), "as");
    assert_eq!(Keyword::Return.word(), "return");
    assert_eq!(Keyword::Mut.word(), "mut");
    assert_eq!(Keyword::True.word(), "true");
    assert_eq!(Keyword::False.word(), "false");
}

#[test]
fn t_identifier() {
    assert_eq!(Token::identifier(&Source::new("x_99 = 1"), 0), Some((4, "x_99".to_string())));
    assert_eq!(Token::identifier(&Source::new("12a;"), 0), Some((3, "12a".to_string())));
    assert_eq!(Token::identifier(&Source::new("_a"), 0), Some((2, "_a".to_string())));
    assert_eq!(Token::identifier(&Source::new("mut_x"), 0), Some((5, "mut_x".to_string())));
    assert_eq!(Token::identifier(&Source::new("a b"), 2), Some((3, "b".to_string())));
    // no letter
    assert_eq!(Token::identifier(&Source::new("123"), 0), None);
    assert_eq!(Token::identifier(&Source::new("__"), 0), None);
    // reserved
    assert_eq!(Token::identifier(&Source::new("func"), 0), None);
    assert_eq!(Token::identifier(&Source::new("return;"), 0), None);
    assert_eq!(Token::identifier(&Source::new("true"), 0), None);
    assert_eq!(Token::identifier(&Source::new("in"), 0), None);
    // nothing there
    assert_eq!(Token::identifier(&Source::new(""), 0), None);
    assert_eq!(Token::identifier(&Source::new("+a"), 0), None);
    assert_eq!(Token::identifier(&Source::new("a"), 1), None);
    // a letter of another alphabet ends the name
    assert_eq!(Token::identifier(&Source::new("caf\u{e9}"), 0), Some((3, "caf".to_string())));
}

#[test]
fn t_reserved_and_letters() {
    let src = Source::new("while whale 42");
    assert!(Token::reserved(&src, 0, 5));
    assert!(!Token::reserved(&src, 6, 11));
    assert!(!Token::reserved(&src, 0, 4));
    assert!(Token::letter_between(&src, 6, 11));
    assert!(!Token::letter_between(&src, 12, 14));
    assert!(!Token::letter_between(&src, 3, 3));
}

#[test]
fn t_operator_longest_first() {
    let ops = [
        ("||", Operator::Or),
        ("&&", Operator::And),
        ("|", Operator::BitOr),
        ("^", Operator::BitXor),
        ("&", Operator::BitAnd),
        ("==", Operator::Equal),
        ("!=", Operator::NotEqual),
        ("<", Operator::Less),
        ("<=", Operator::LessEqual),
        (">", Operator::Greater),
        (">=", Operator::GreaterEqual),
        ("<<", Operator::ShiftLeft),
        (">>", Operator::ShiftRight),
        ("+", Operator::Add),
        ("-", Operator::Sub),
        ("*", Operator::Mul),
        ("/", Operator::Div),
        ("%", Operator::Rem),
    ];
    for (text, op) in ops {
        assert_eq!(op.symbol(), text);
        let padded = format!("{} x", text);
        assert_eq!(Token::operator(&Source::new(&padded), 0), Some((text.len(), op)));
    }
    assert_eq!(Token::operator(&Source::new("="), 0), None);
    assert_eq!(Token::operator(&Source::new("!"), 0), None);
    assert_eq!(Token::operator(&Source::new("?"), 0), None);
    assert_eq!(Token::operator(&Source::new("a"), 0), None);
    assert_eq!(Token::operator(&Source::new("+"), 1), None);
    assert!(Token::operator_char(&Source::new("?"), 0));
    assert!(Token::operator_char(&Source::new("="), 0));
    assert!(Token::operator_char(&Source::new("~"), 0));
    assert!(!Token::operator_char(&Source::new(";"), 0));
    assert!(!Token::operator_char(&Source::new("+"), 1));
}

#[test]
fn t_operator_precedence_table() {
    assert_eq!(Operator::Or.precedence(), 1);
    assert_eq!(Operator::And.precedence(), 2);
    assert_eq!(Operator::BitOr.precedence(), 3);
    assert_eq!(Operator::BitXor.precedence(), 4);
    assert_eq!(Operator::BitAnd.precedence(), 5);
    assert_eq!(Operator::Equal.precedence(), 6);
    assert_eq!(Operator::NotEqual.precedence(), 6);
    assert_eq!(Operator::Less.precedence(), 7);
    assert_eq!(Operator::LessEqual.precedence(), 7);
    assert_eq!(Operator::Greater.precedence(), 7);
    assert_eq!(Operator::GreaterEqual.precedence(), 7);
    assert_eq!(Operator::ShiftLeft.precedence(), 8);
    assert_eq!(Operator::ShiftRight.precedence(), 8);
    assert_eq!(Operator::Add.precedence(), 9);
    assert_eq!(Operator::Sub.precedence(), 9);
    assert_eq!(Operator::Mul.precedence(), 10);
    assert_eq!(Operator::Div.precedence(), 10);
    assert_eq!(Operator::Rem.precedence(), 10);
}

#[test]
fn t_comments_and_whitespace() {
    assert_eq!(Token::maybe_consume_extra(&Source::new("   x"), 0), 3);
    assert_eq!(Token::maybe_consume_extra(&Source::new("x"), 0), 0);
    assert_eq!(Token::maybe_consume_extra(&Source::new(""), 0), 0);
    assert_eq!(Token::maybe_consume_extra(&Source::new(" \t\r\n"), 0), 4);
    assert_eq!(Token::maybe_consume_extra(&Source::new("// note\nx"), 0), 8);
    assert_eq!(Token::maybe_consume_extra(&Source::new("# note\nx"), 0), 7);
    assert_eq!(Token::maybe_consume_extra(&Source::new("// to the end"), 0), 13);
    assert_eq!(Token::maybe_consume_extra(&Source::new("/* a */ /* b */x"), 0), 15);
    assert_eq!(Token::maybe_consume_extra(&Source::new("/**/x"), 0), 4);
    assert_eq!(Token::maybe_consume_extra(&Source::new("  /* never closed"), 0), 2);
    assert_eq!(Token::maybe_consume_extra(&Source::new("/*/ x"), 0), 0);
    assert_eq!(Token::maybe_consume_extra(&Source::new("/ x"), 0), 0);
    assert_eq!(Token::maybe_consume_extra(&Source::new("ab"), 7), 7);
    assert_eq!(Token::comment(&Source::new("x // c"), 2), 6);
    assert_eq!(Token::comment(&Source::new("x // c"), 0), 0);
    assert_eq!(Token::maybe_consume_whitespaces(&Source::new("  // c"), 0), 2);
}

#[test]
fn t_int_constant() {
    assert_eq!(Token::int_constant(&Source::new("12"), 0), Ok((2, 12)));
    assert_eq!(Token::int_constant(&Source::new("-12;"), 0), Ok((3, -12)));
    assert_eq!(Token::int_constant(&Source::new("007"), 0), Ok((3, 7)));
    assert_eq!(Token::int_constant(&Source::new("0"), 0), Ok((1, 0)));
    assert_eq!(Token::int_constant(&Source::new("12a"), 0), Ok((2, 12)));
    assert_eq!(
        Token::int_constant(&Source::new("9223372036854775807"), 0),
        Ok((19, i64::MAX))
    );
    assert_eq!(
        Token::int_constant(&Source::new("-9223372036854775808"), 0),
        Ok((20, i64::MIN))
    );
    assert_eq!(
        Token::int_constant(&Source::new("9223372036854775808"), 0),
        Err(ErrorKind::MalformedLiteral)
    );
    assert_eq!(
        Token::int_constant(&Source::new("-9223372036854775809"), 0),
        Err(ErrorKind::MalformedLiteral)
    );
    assert_eq!(
        Token::int_constant(&Source::new("123456789012345678901234567890"), 0),
        Err(ErrorKind::MalformedLiteral)
    );
    assert_eq!(Token::int_constant(&Source::new("a"), 0), Err(ErrorKind::ExpectedTokenMissing));
    assert_eq!(Token::int_constant(&Source::new("-"), 0), Err(ErrorKind::ExpectedTokenMissing));
    assert_eq!(Token::int_constant(&Source::new(""), 0), Err(ErrorKind::ExpectedTokenMissing));
}

#[test]
fn t_float_constant() {
    assert_eq!(Token::float_constant(&Source::new("3.12"), 0), Ok((4, "3.12".to_string())));
    assert_eq!(Token::float_constant(&Source::new("-0.5)"), 0), Ok((4, "-0.5".to_string())));
    assert_eq!(Token::float_constant(&Source::new("1.double()"), 0), Err(ErrorKind::ExpectedTokenMissing));
    assert_eq!(Token::float_constant(&Source::new("12"), 0), Err(ErrorKind::ExpectedTokenMissing));
    assert_eq!(Token::float_constant(&Source::new(".5"), 0), Err(ErrorKind::ExpectedTokenMissing));
    assert_eq!(Token::float_constant(&Source::new("5."), 0), Err(ErrorKind::ExpectedTokenMissing));
}

#[test]
fn t_char_constant() {
    assert_eq!(Token::char_constant(&Source::new("'a'"), 0), Ok((3, 'a')));
    assert_eq!(Token::char_constant(&Source::new("'\u{e9}' "), 0), Ok((3, '\u{e9}')));
    assert_eq!(Token::char_constant(&Source::new("'''"), 0), Ok((3, '\'')));
    assert_eq!(Token::char_constant(&Source::new("'ab'"), 0), Err(ErrorKind::MalformedLiteral));
    assert_eq!(Token::char_constant(&Source::new("'a"), 0), Err(ErrorKind::MalformedLiteral));
    assert_eq!(Token::char_constant(&Source::new("'"), 0), Err(ErrorKind::MalformedLiteral));
    assert_eq!(Token::char_constant(&Source::new("a"), 0), Err(ErrorKind::ExpectedTokenMissing));
}

#[test]
fn t_string_constant() {
    assert_eq!(Token::string_constant(&Source::new("\"hey\" "), 0), Ok((5, "hey".to_string())));
    assert_eq!(Token::string_constant(&Source::new("\"\""), 0), Ok((2, String::new())));
    assert_eq!(Token::string_constant(&Source::new("\"a b\nc\""), 0), Ok((7, "a b\nc".to_string())));
    assert_eq!(Token::string_constant(&Source::new("\"open"), 0), Err(ErrorKind::MalformedLiteral));
    assert_eq!(Token::string_constant(&Source::new("open\""), 0), Err(ErrorKind::ExpectedTokenMissing));
}

#[test]
fn t_bool_constant() {
    assert_eq!(Token::bool_constant(&Source::new("true"), 0), Ok((4, true)));
    assert_eq!(Token::bool_constant(&Source::new("false)"), 0), Ok((5, false)));
    assert_eq!(Token::bool_constant(&Source::new("truth"), 0), Err(ErrorKind::ExpectedTokenMissing));
    assert_eq!(Token::bool_constant(&Source::new("true_"), 0), Err(ErrorKind::ExpectedTokenMissing));
}

#[test]
fn t_integers_are_read_back() {
    for i in [0, 1, -1, 9, 10, 11, 99, 100, -100, 1234567890, i64::MAX, i64::MIN, i64::MIN + 1] {
        let text = jinko::value::JinkInt::from(i).print();
        let src = Source::new(&text);
        assert_eq!(Token::int_constant(&src, 0), Ok((text.chars().count(), i)));
    }
}

#[test]
fn t_skipping_is_complete() {
    for text in ["  // a\n /* b */ x", "", "x", "   ", "/* open", "#!\n#\n\n"] {
        let src = Source::new(text);
        let end = Token::maybe_consume_extra(&src, 0);
        assert_eq!(Token::maybe_consume_extra(&src, end), end);
        assert_eq!(Token::comment(&src, end), end);
        if let Some(c) = src.peek(end) {
            assert!(!CharClass::Whitespace.contains(c));
        }
    }
}

#[test]
fn t_keywords_are_no_names() {
    let all = [
        Keyword::Func,
        Keyword::Ext,
        Keyword::Test,
        Keyword::Mock,
        Keyword::Type,
        Keyword::If,
        Keyword::Else,
        Keyword::Audit,
        Keyword::Loop,
        Keyword::While,
        Keyword::For,
        Keyword::In,
        Keyword::Incl,
        Keyword::As,
        Keyword::Return,
        Keyword::Mut,
        Keyword::True,
        Keyword::False,
    ];
    for k in all {
        let word = k.word();
        let src = Source::new(word);
        assert_eq!(Token::keyword(&src, 0, k), Some(word.len()));
        assert_eq!(Token::identifier(&src, 0), None);
        // one character more, and the word is a name
        let longer = format!("{}_", word);
        let src = Source::new(&longer);
        assert_eq!(Token::keyword(&src, 0, k), None);
        assert_eq!(Token::identifier(&src, 0), Some((longer.len(), longer.clone())));
    }
}
