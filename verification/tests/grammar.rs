use jinko::instruction::{FunctionKind, Instruction, LoopKind};
use jinko::parser::Construct;

#[test]
fn t_many_instructions() {
    let (rest, nodes) = Construct::many_instructions("a = 1; b = 2 f(a, b);").unwrap();
    assert_eq!(rest, "");
    assert_eq!(nodes.len(), 3);
    assert_eq!(nodes[0].print(), "a = 1");
    assert_eq!(nodes[1].print(), "b = 2");
    assert_eq!(nodes[2].print(), "f(a, b)");

    let (rest, nodes) = Construct::many_instructions("").unwrap();
    assert_eq!(rest, "");
    assert_eq!(nodes.len(), 0);

    let (rest, nodes) = Construct::many_instructions("a; ? b").unwrap();
    assert_eq!(rest, " ? b");
    assert_eq!(nodes.len(), 1);

    let (rest, nodes) = Construct::many_instructions("  // nothing but a comment").unwrap();
    assert_eq!(rest, "  // nothing but a comment");
    assert_eq!(nodes.len(), 0);
}

#[test]
fn t_instruction_maybe_semicolon() {
    let (rest, node) = Construct::instruction_maybe_semicolon("f(); g()").unwrap();
    assert_eq!(rest, " g()");
    assert_eq!(node.print(), "f()");
    let (rest, _) = Construct::instruction_maybe_semicolon("f() g()").unwrap();
    assert_eq!(rest, "g()");
    let (rest, _) = Construct::instruction_maybe_semicolon("f();;").unwrap();
    assert_eq!(rest, ";");
    assert!(Construct::instruction_maybe_semicolon(";").is_err());
}

#[test]
fn t_instruction_skips_what_is_insignificant() {
    let (rest, node) = Construct::instruction("  /* a */ x // b\n  ").unwrap();
    assert_eq!(rest, "");
    assert_eq!(node.print(), "x");
}

#[test]
fn t_declaration_kinds() {
    let kind = |input: &str| match Construct::instruction(input).unwrap().1 {
        Instruction::FunctionDec(f) => (f.kind(), f.block().is_some(), f.args().len()),
        other => panic!("{:?}", other),
    };
    assert_eq!(kind("func f(a: int) {}"), (FunctionKind::Func, true, 1));
    assert_eq!(kind("mock f(a: int, b: int) {}"), (FunctionKind::Mock, true, 2));
    assert_eq!(kind("test f() {}"), (FunctionKind::Test, true, 0));
    assert_eq!(kind("ext func f(a: int);"), (FunctionKind::Ext, false, 1));
}

#[test]
fn t_test_takes_no_argument_and_returns_nothing() {
    assert!(Construct::test_declaration("test add() {}").is_ok());
    assert!(Construct::test_declaration("test add(a: int) {}").is_err());
    assert!(Construct::test_declaration("test add() -> int {}").is_err());
    assert!(Construct::test_declaration("test add(a: int) -> int {}").is_err());
    assert!(Construct::test_declaration("test add()").is_err());
}

#[test]
fn t_ext_has_no_block() {
    let (rest, f) = Construct::ext_declaration("ext func add(lhs: ty, rhs: ty); more").unwrap();
    assert_eq!(rest, " more");
    assert!(f.block().is_none());
    assert_eq!(f.ty(), None);
    assert_eq!(f.kind(), FunctionKind::Ext);
    assert!(Construct::ext_declaration("ext func add(lhs: ty, rhs: ty) {}").is_err());
    assert!(Construct::ext_declaration("ext add(lhs: ty, rhs: ty);").is_err());
    assert!(Construct::ext_declaration("extfunc add();").is_err());
}

#[test]
fn t_func_needs_its_block() {
    assert!(Construct::function_declaration("func f();").is_err());
    assert!(Construct::function_declaration("func f()").is_err());
    assert!(Construct::function_declaration("func () {}").is_err());
    assert!(Construct::function_declaration("funcf() {}").is_err());
    assert!(Construct::function_declaration("func f() -> {}").is_err());
    assert!(Construct::mock_declaration("mock f();").is_err());
    let (_, f) = Construct::function_declaration("func f() -> int { 1 }").unwrap();
    assert_eq!(f.ty(), Some("int"));
    assert_eq!(f.block().unwrap().last().unwrap().print(), "1");
}

#[test]
fn t_lists_reject_a_trailing_separator() {
    assert!(Construct::function_call("fn(1,)").is_err());
    assert!(Construct::function_call("fn(,)").is_err());
    assert!(Construct::function_call("fn(,1)").is_err());
    assert!(Construct::function_call("fn(1 2)").is_err());
    assert!(Construct::args_dec("(a: int,)").is_err());
    assert!(Construct::args_dec("(a: int b: int)").is_err());
    assert!(Construct::args_dec("(a int)").is_err());
    assert!(Construct::type_instantiation("A { 1, }").is_err());
    assert!(Construct::type_instantiation("A { }").is_err());
    assert!(Construct::type_instantiation("A {}").is_err());
    assert_eq!(Construct::type_instantiation("A { 1, 2 }").unwrap().1.fields().len(), 2);
    assert!(Construct::type_declaration("type A()").is_err());
    assert_eq!(Construct::type_declaration("type A(a: b)").unwrap().1.fields().len(), 1);
    assert_eq!(Construct::type_declaration("type Int(v: int);").unwrap().0, ";");
}

#[test]
fn t_block_trailing_value() {
    let (rest, block) = Construct::block("{ 12; 14 } after").unwrap();
    assert_eq!(rest, " after");
    assert_eq!(block.instructions().len(), 1);
    assert_eq!(block.instructions()[0].print(), "12");
    assert_eq!(block.last().unwrap().print(), "14");
    let (_, block) = Construct::block("{}").unwrap();
    assert_eq!(block.instructions().len(), 0);
    assert!(block.last().is_none());
    let (_, block) = Construct::block("{ 12; 14; }").unwrap();
    assert_eq!(block.instructions().len(), 2);
    assert!(block.last().is_none());
    assert!(Construct::block("{ 12 14 }").is_err());
    assert!(Construct::block("{ 12; 14 15 }").is_err());
    assert!(Construct::block("{ ; }").is_err());
}

#[test]
fn t_blocks_nest() {
    let (rest, block) = Construct::block("{ { a; { b } }; c }").unwrap();
    assert_eq!(rest, "");
    assert_eq!(block.print(), "{ { a; { b } }; c }");
}

#[test]
fn t_loops() {
    let kind = |input: &str| match Construct::any_loop(input).unwrap() {
        (rest, node) => {
            assert_eq!(rest, "");
            match node.loop_kind() {
                LoopKind::Loop => "loop",
                LoopKind::While(_) => "while",
                LoopKind::For(_, _) => "for",
            }
        },
    };
    assert_eq!(kind("loop {}"), "loop");
    assert_eq!(kind("while a {}"), "while");
    assert_eq!(kind("for a in b {}"), "for");
    assert_eq!(kind("  for a in b {}"), "for");
    assert!(Construct::any_loop("loops {}").is_err());
    assert!(Construct::any_loop("for in in b {}").is_err());
    assert!(Construct::any_loop("fora in b {}").is_err());
}

#[test]
fn t_if_else_parts() {
    let (rest, node) = Construct::if_else("if a < b { a } else { b } c").unwrap();
    assert_eq!(rest, " c");
    assert_eq!(node.condition().print(), "a < b");
    assert_eq!(node.if_body().print(), "{ a }");
    assert_eq!(node.else_body().unwrap().print(), "{ b }");
    let (rest, node) = Construct::if_else("if a {} els {}").unwrap();
    assert_eq!(rest, " els {}");
    assert!(node.else_body().is_none());
    assert!(Construct::if_else("if {}").is_err());
    assert!(Construct::if_else("if a").is_err());
    assert!(Construct::if_else("iff a {}").is_err());
}

#[test]
fn t_condition_takes_the_longest_instruction() {
    // a name followed by braces with a value between them is an instantiation
    assert!(Construct::if_else("if c { 1 }").is_err());
    assert!(Construct::while_block("while c { 1 }").is_err());
    assert!(Construct::if_else("if c {}").is_ok());
    assert!(Construct::if_else("if c() { 1 }").is_ok());
    assert!(Construct::if_else("if c == d { 1 }").is_ok());
}

#[test]
fn t_incl_parts() {
    let (rest, node) = Construct::incl("incl simple").unwrap();
    assert_eq!(rest, "");
    assert_eq!(node.path(), "simple");
    assert_eq!(node.alias(), None);
    let (rest, node) = Construct::incl("incl a as b").unwrap();
    assert_eq!(rest, "");
    assert_eq!(node.path(), "a");
    assert_eq!(node.alias(), Some("b"));
    let (rest, node) = Construct::incl("incl a ass b").unwrap();
    assert_eq!(rest, "ass b");
    assert_eq!(node.alias(), None);
    assert!(Construct::incl("include a").is_err());
}

#[test]
fn t_var_assignment_parts() {
    let (rest, node) = Construct::var_assignment("mut x = f(1);").unwrap();
    assert_eq!(rest, ";");
    assert!(node.mutable());
    assert_eq!(node.symbol(), "x");
    assert_eq!(node.value().print(), "f(1)");
    assert!(Construct::var_assignment("mut = 1").is_err());
    assert!(Construct::var_assignment("x == 1").is_err());
    assert!(Construct::var_assignment("x =").is_err());
    assert!(Construct::var_assignment("x // c\n= 1").is_err());
}

#[test]
fn t_return_type_rest() {
    assert_eq!(Construct::return_type("-> int {"), Ok(("{", Some("int".to_owned()))));
    assert_eq!(Construct::return_type("{"), Ok(("{", None)));
    assert!(Construct::return_type("-> {").is_err());
    assert!(Construct::return_type("->").is_err());
}
