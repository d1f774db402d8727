use jinko::error::{ErrorKind, ParseError};
use jinko::instruction::{Instruction, JkInst};
use jinko::parser::{Construct, Source};
use jinko::parser::rules;

#[test]
fn t_expected_token_missing() {
    let e = Construct::block("12").unwrap_err();
    assert_eq!(e, ParseError { remaining: "12", kind: ErrorKind::ExpectedTokenMissing });
    assert_eq!(Construct::block("{ a").unwrap_err().kind, ErrorKind::ExpectedTokenMissing);
    assert_eq!(Construct::variable("12").unwrap_err().kind, ErrorKind::ExpectedTokenMissing);
    assert_eq!(Construct::incl("incl").unwrap_err().kind, ErrorKind::ExpectedTokenMissing);
    assert_eq!(Construct::incl("incl a as").unwrap_err().kind, ErrorKind::ExpectedTokenMissing);
    assert_eq!(
        Construct::ext_declaration("ext func add(a: int) -> int {}").unwrap_err().kind,
        ErrorKind::ExpectedTokenMissing
    );
    assert_eq!(Construct::method_call("a.b").unwrap_err().kind, ErrorKind::ConstructNotRecognized);
    assert_eq!(Construct::method_call("a b()").unwrap_err().kind, ErrorKind::ExpectedTokenMissing);
}

#[test]
fn t_construct_not_recognized() {
    let e = Construct::instruction("  ?").unwrap_err();
    assert_eq!(e, ParseError { remaining: "  ?", kind: ErrorKind::ConstructNotRecognized });
    assert_eq!(Construct::instruction("").unwrap_err().kind, ErrorKind::ConstructNotRecognized);
    assert_eq!(Construct::constant("x").unwrap_err().kind, ErrorKind::ConstructNotRecognized);
    assert_eq!(Construct::function_call("fn(").unwrap_err().kind, ErrorKind::ConstructNotRecognized);
    assert_eq!(Construct::any_loop("if a {}").unwrap_err().kind, ErrorKind::ConstructNotRecognized);
    assert_eq!(Construct::args_dec("(a: int,)").unwrap_err().kind, ErrorKind::ConstructNotRecognized);
    assert_eq!(
        Construct::test_declaration("test add() -> int {}").unwrap_err().kind,
        ErrorKind::ConstructNotRecognized
    );
    assert_eq!(
        Construct::return_expression("return return").unwrap_err().kind,
        ErrorKind::ConstructNotRecognized
    );
}

#[test]
fn t_unexpected_trailing_input() {
    let e = Construct::return_expression("return 1 2").unwrap_err();
    assert_eq!(e, ParseError { remaining: "return 1 2", kind: ErrorKind::UnexpectedTrailingInput });
    assert_eq!(
        Construct::return_expression("return; x").unwrap_err().kind,
        ErrorKind::UnexpectedTrailingInput
    );
}

#[test]
fn t_malformed_literal() {
    let src = Source::new("99999999999999999999");
    assert_eq!(jinko::parser::Token::int_constant(&src, 0), Err(ErrorKind::MalformedLiteral));
    let src = Source::new("\"never closed");
    assert_eq!(jinko::parser::Token::string_constant(&src, 0), Err(ErrorKind::MalformedLiteral));
    let src = Source::new("'ab");
    assert_eq!(jinko::parser::Token::char_constant(&src, 0), Err(ErrorKind::MalformedLiteral));
    // in an alternation the failure of the literal is one failure among others
    assert_eq!(
        Construct::constant("99999999999999999999").unwrap_err().kind,
        ErrorKind::ConstructNotRecognized
    );
}

#[test]
fn t_unknown_directive() {
    let e = Construct::jinko_inst("@nope()").unwrap_err();
    assert_eq!(e, ParseError { remaining: "@nope()", kind: ErrorKind::UnknownDirective });
    assert_eq!(Construct::jinko_inst("@dumped(1)").unwrap_err().kind, ErrorKind::UnknownDirective);
    assert_eq!(Construct::jinko_inst("@dump").unwrap_err().kind, ErrorKind::ConstructNotRecognized);
    assert_eq!(Construct::jinko_inst("dump()").unwrap_err().kind, ErrorKind::ExpectedTokenMissing);
    assert_eq!(Construct::jinko_inst("@dump()"), Ok(("", JkInst::Dump)));
    assert_eq!(Construct::jinko_inst("@quit() rest"), Ok((" rest", JkInst::Quit)));
    // an instruction that is no directive that is known is no instruction
    assert!(Construct::instruction("@nope()").is_err());
    assert_eq!(JkInst::from_str("dump"), Some(JkInst::Dump));
    assert_eq!(JkInst::from_str("quit"), Some(JkInst::Quit));
    assert_eq!(JkInst::from_str("Dump"), None);
    assert_eq!(JkInst::from_str(""), None);
}

#[test]
fn t_failure_leaves_input_whole() {
    assert_eq!(Construct::function_call("fn(1, 2, 3, 4,)").unwrap_err().remaining, "fn(1, 2, 3, 4,)");
    assert_eq!(Construct::block("{ 12a; 13a").unwrap_err().remaining, "{ 12a; 13a");
    assert_eq!(Construct::type_declaration("type Empty();").unwrap_err().remaining, "type Empty();");
    assert_eq!(Construct::var_assignment("mutable x = 12").unwrap_err().remaining, "mutable x = 12");
    assert_eq!(
        Construct::function_declaration("func f(a: int) -> { }").unwrap_err().remaining,
        "func f(a: int) -> { }"
    );
    assert_eq!(Construct::if_else("if a < b {").unwrap_err().remaining, "if a < b {");
    assert_eq!(Construct::for_block("for x in y").unwrap_err().remaining, "for x in y");
    assert_eq!(Construct::while_block("  while x").unwrap_err().remaining, "  while x");
    assert_eq!(Construct::instruction("   ").unwrap_err().remaining, "   ");
    assert_eq!(Construct::instruction("func f(").unwrap_err().remaining, "func f(");
    assert_eq!(Construct::instruction("{ a; b").unwrap_err().remaining, "{ a; b");
    assert_eq!(Construct::binary_op("a + 1 * ").unwrap_err().remaining, "a + 1 * ");
    assert_eq!(Construct::method_call("a.b(c").unwrap_err().remaining, "a.b(c");
    assert_eq!(Construct::type_instantiation("A { 1, 2").unwrap_err().remaining, "A { 1, 2");
    assert_eq!(Construct::ext_declaration("ext func f()").unwrap_err().remaining, "ext func f()");
    assert_eq!(Construct::incl("incl a as").unwrap_err().remaining, "incl a as");
    assert_eq!(Construct::return_expression("return a b").unwrap_err().remaining, "return a b");
}

#[test]
fn t_same_input_same_answer() {
    let inputs = [
        "func add(lhs: int, rhs: int) -> int { lhs + rhs } tail",
        "x = f(1, g(2), \"three\").h()",
        "{ a; b; c }",
        "while a < b { a = a + 1; }",
        "fn(1, 2, 3, 4,)",
        "",
    ];
    for input in inputs {
        let first = Construct::instruction(input);
        let second = Construct::instruction(input);
        match (first, second) {
            (Ok((rest, node)), Ok((other_rest, other_node))) => {
                assert_eq!(rest, other_rest);
                assert_eq!(node.print(), other_node.print());
                assert_eq!(format!("{:?}", node), format!("{:?}", other_node));
            },
            (Err(e), Err(f)) => assert_eq!(e, f),
            _ => panic!("two answers to {:?}", input),
        }
    }
}

#[test]
fn t_rules_answer_with_a_cursor() {
    let src = Source::new("  f(x) ; rest");
    let (end, node) = rules::instruction(&src, 0).unwrap();
    assert_eq!(end, 7);
    assert!(matches!(node, Instruction::FunctionCall(_)));
    assert_eq!(src.rest(end), "; rest");
    match rules::instruction(&src, 7) {
        Err(kind) => assert_eq!(kind, ErrorKind::ConstructNotRecognized),
        Ok(_) => panic!("`;` is no instruction"),
    }
}
