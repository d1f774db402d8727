use jinko::instruction::{
    Audit, BinaryOp, Block, FunctionCall, FunctionDec, FunctionDecArg, FunctionKind, IfElse, Incl,
    InstrKind, Instruction, JkInst, Loop, LoopKind, MethodCall, Operator, Return, TypeDec,
    TypeInstantiation, Var, VarAssign,
};
use jinko::parser::Construct;
use jinko::value::{JinkBool, JinkChar, JinkFloat, JinkInt, JinkString};

fn num(i: i64) -> Instruction {
    Instruction::Int(JinkInt::from(i))
}

fn var(name: &str) -> Instruction {
    Instruction::Var(Var::new(name.to_string()))
}

#[test]
fn t_function_dec_arg() {
    let arg = FunctionDecArg::new("lhs".to_string(), "int".to_string());
    assert_eq!(arg.name(), "lhs");
    assert_eq!(arg.ty(), "int");
}

#[test]
fn t_function_dec_is_built_in_stages() {
    let mut function = FunctionDec::new("add".to_string(), Some("int".to_string()));
    assert_eq!(function.name(), "add");
    assert_eq!(function.ty(), Some("int"));
    assert_eq!(function.kind(), FunctionKind::Unknown);
    assert_eq!(function.args().len(), 0);
    assert!(function.block().is_none());
    assert_eq!(function.instr_kind(), InstrKind::Statement);
    assert_eq!(function.print(), "add() -> int;");

    function.set_kind(FunctionKind::Func);
    assert_eq!(function.kind(), FunctionKind::Func);
    function.set_args(vec![
        FunctionDecArg::new("lhs".to_string(), "int".to_string()),
        FunctionDecArg::new("rhs".to_string(), "int".to_string()),
    ]);
    assert_eq!(function.args().len(), 2);
    assert_eq!(function.args()[1].name(), "rhs");
    let mut block = Block::new();
    block.set_last(Some(var("lhs")));
    function.set_block(block);
    assert!(function.block().unwrap().last().is_some());
    assert_eq!(function.name(), "add");
    assert_eq!(function.ty(), Some("int"));
    assert_eq!(function.print(), "func add(lhs: int, rhs: int) -> int { lhs }");

    let void = FunctionDec::new("nothing".to_string(), None);
    assert_eq!(void.ty(), None);
}

#[test]
fn t_literals() {
    assert_eq!(JinkInt::from(-12).value(), -12);
    assert_eq!(JinkInt::from(-12).print(), "-12");
    assert_eq!(JinkInt::from(0).print(), "0");
    assert_eq!(JinkInt::from(i64::MIN).print(), "-9223372036854775808");
    assert_eq!(JinkInt::from(7).kind(), InstrKind::Expression(None));
    assert_eq!(JinkChar::from('c').value(), 'c');
    assert_eq!(JinkChar::from('c').print(), "c");
    assert_eq!(JinkChar::from('\u{e9}').print(), "\u{e9}");
    assert_eq!(JinkChar::from('c').kind(), InstrKind::Expression(None));
    assert_eq!(JinkString::from("jinko").value(), "jinko");
    assert_eq!(JinkString::from("jinko").print(), "\"jinko\"");
    assert_eq!(JinkString::from("").print(), "\"\"");
    assert_eq!(JinkString::from("s").kind(), InstrKind::Expression(None));
    assert_eq!(JinkBool::from(true).print(), "true");
    assert_eq!(JinkBool::from(false).print(), "false");
    assert!(JinkBool::from(true).value());
    assert_eq!(JinkBool::from(true).kind(), InstrKind::Expression(None));
    assert_eq!(JinkFloat::from("3.12").text(), "3.12");
    assert_eq!(JinkFloat::from("3.12").print(), "3.12");
    assert_eq!(JinkFloat::from("3.12").kind(), InstrKind::Expression(None));
}

#[test]
fn t_literals_are_parsed_to_their_values() {
    match Construct::constant("-42 ").unwrap() {
        (rest, Instruction::Int(i)) => {
            assert_eq!(rest, " ");
            assert_eq!(i.value(), -42);
        },
        other => panic!("{:?}", other),
    }
    match Construct::constant("'x'").unwrap().1 {
        Instruction::Char(c) => assert_eq!(c.value(), 'x'),
        other => panic!("{:?}", other),
    }
    match Construct::constant("\"a string\"").unwrap().1 {
        Instruction::Str(s) => assert_eq!(s.value(), "a string"),
        other => panic!("{:?}", other),
    }
    match Construct::constant("0.5").unwrap().1 {
        Instruction::Float(f) => assert_eq!(f.text(), "0.5"),
        other => panic!("{:?}", other),
    }
    match Construct::constant("false").unwrap().1 {
        Instruction::Bool(b) => assert!(!b.value()),
        other => panic!("{:?}", other),
    }
    // an integer is tried after a floating point number
    match Construct::constant("1.double()").unwrap() {
        (rest, Instruction::Int(i)) => {
            assert_eq!(rest, ".double()");
            assert_eq!(i.value(), 1);
        },
        other => panic!("{:?}", other),
    }
}

#[test]
fn t_method_call_is_desugared_on_demand() {
    let (rest, call) = Construct::method_call("a.f(1, 2)").unwrap();
    assert_eq!(rest, "");
    assert_eq!(call.caller().print(), "a");
    assert_eq!(call.method().name(), "f");
    assert_eq!(call.method().args().len(), 2);
    assert_eq!(call.print(), "a.f(1, 2)");
    let plain = call.desugar();
    assert_eq!(plain.name(), "f");
    assert_eq!(plain.args().len(), 3);
    assert_eq!(plain.print(), "f(a, 1, 2)");

    let alone = MethodCall::new(num(1), FunctionCall::new("double".to_string())).desugar();
    assert_eq!(alone.print(), "double(1)");
}

#[test]
fn t_method_call_takes_one_call() {
    let (rest, call) = Construct::method_call("1.double().double()").unwrap();
    assert_eq!(rest, ".double()");
    assert_eq!(call.print(), "1.double()");
    let (rest, node) = Construct::instruction("1.double().double()").unwrap();
    assert_eq!(rest, ".double()");
    assert_eq!(node.print(), "1.double()");
    let (rest, call) = Construct::method_call("a.b().c()").unwrap();
    assert_eq!(rest, ".c()");
    assert_eq!(call.print(), "a.b()");
}

#[test]
fn t_function_call_node() {
    let mut call = FunctionCall::new("f".to_string());
    assert_eq!(call.name(), "f");
    assert_eq!(call.args().len(), 0);
    assert_eq!(call.print(), "f()");
    call.add_arg(num(1));
    call.add_arg(var("x"));
    assert_eq!(call.args().len(), 2);
    assert_eq!(call.print(), "f(1, x)");
    call.set_args(vec![num(3)]);
    assert_eq!(call.print(), "f(3)");
    assert_eq!(call.kind(), InstrKind::Expression(None));
    let (name, args) = call.into_parts();
    assert_eq!(name, "f");
    assert_eq!(args.len(), 1);
}

#[test]
fn t_block_node() {
    let mut block = Block::new();
    assert_eq!(block.print(), "{ }");
    assert_eq!(block.kind(), InstrKind::Statement);
    block.add_instruction(var("a"));
    block.add_instruction(num(2));
    assert_eq!(block.instructions().len(), 2);
    assert!(block.last().is_none());
    assert_eq!(block.print(), "{ a; 2; }");
    assert_eq!(block.kind(), InstrKind::Statement);
    block.set_last(Some(num(3)));
    assert_eq!(block.last().unwrap().print(), "3");
    assert_eq!(block.print(), "{ a; 2; 3 }");
    assert_eq!(block.kind(), InstrKind::Expression(None));
    block.set_instructions(vec![]);
    assert_eq!(block.print(), "{ 3 }");
    let mut assigning = Block::new();
    assigning.set_last(Some(Instruction::VarAssign(VarAssign::new(false, "x".to_string(), num(1)))));
    assert_eq!(assigning.kind(), InstrKind::Statement);
    block.set_last(None);
    assert_eq!(block.print(), "{ }");
}

#[test]
fn t_printable_forms() {
    assert_eq!(VarAssign::new(true, "n".to_string(), num(12)).print(), "mut n = 12");
    assert_eq!(VarAssign::new(false, "n".to_string(), var("m")).print(), "n = m");
    assert_eq!(BinaryOp::new(num(1), num(2), Operator::ShiftLeft).print(), "1 << 2");
    assert_eq!(Var::new("x_99".to_string()).print(), "x_99");
    assert_eq!(Incl::new("a".to_string(), None).print(), "incl a");
    assert_eq!(Incl::new("a".to_string(), Some("b".to_string())).print(), "incl a as b");
    assert_eq!(JkInst::Dump.print(), "@dump()");
    assert_eq!(JkInst::Quit.print(), "@quit()");
    assert_eq!(Return::new(None).print(), "return");
    assert_eq!(Return::new(Some(num(1))).print(), "return 1");
    assert_eq!(Audit::new(Block::new()).print(), "audit { }");
    assert_eq!(Loop::new(LoopKind::Loop, Block::new()).print(), "loop { }");
    assert_eq!(
        Loop::new(LoopKind::While(Box::new(var("c"))), Block::new()).print(),
        "while c { }"
    );
    assert_eq!(
        Loop::new(LoopKind::For(Var::new("i".to_string()), Box::new(var("r"))), Block::new())
            .print(),
        "for i in r { }"
    );
    assert_eq!(IfElse::new(var("c"), Block::new(), None).print(), "if c { }");
    assert_eq!(
        IfElse::new(var("c"), Block::new(), Some(Block::new())).print(),
        "if c { } else { }"
    );
    assert_eq!(
        TypeDec::new(
            "Point".to_string(),
            vec![
                FunctionDecArg::new("x".to_string(), "int".to_string()),
                FunctionDecArg::new("y".to_string(), "int".to_string()),
            ]
        )
        .print(),
        "type Point(x: int, y: int)"
    );
    let mut point = TypeInstantiation::new("Point".to_string());
    point.add_field(num(1));
    point.add_field(num(2));
    assert_eq!(point.print(), "Point { 1, 2 }");
    point.set_fields(vec![num(3)]);
    assert_eq!(point.print(), "Point { 3 }");
    assert_eq!(point.name(), "Point");
    assert_eq!(point.fields().len(), 1);
}

#[test]
fn t_parsed_then_printed() {
    let cases = [
        ("func add(lhs: int,rhs :int)->int{lhs+rhs}", "func add(lhs: int, rhs: int) -> int { lhs + rhs }"),
        ("ext func add(lhs: ty, rhs: ty);", "ext func add(lhs: ty, rhs: ty);"),
        ("ext func now() -> time ;", "ext func now() -> time;"),
        ("test add() { assert_eq(12 + 2, add(12, 2)); }", "test add() { assert_eq(12 + 2, add(12, 2)); }"),
        ("mock add(lhs: int, rhs: int) -> int { mock_stuff() }", "mock add(lhs: int, rhs: int) -> int { mock_stuff() }"),
        ("type Custom(v: int, a: SomeType)", "type Custom(v: int, a: SomeType)"),
        ("Custom { 1,x , \"s\" }", "Custom { 1, x, \"s\" }"),
        ("mut\nname = 129", "mut name = 129"),
        ("x=12", "x = 12"),
        ("if a == b { 1 } else { 2 }", "if a == b { 1 } else { 2 }"),
        ("while x_99 {}", "while x_99 { }"),
        ("for x_99 in range(1, 10) { f(x_99); }", "for x_99 in range(1, 10) { f(x_99); }"),
        ("loop{}", "loop { }"),
        ("audit { 1; 2 }", "audit { 1; 2 }"),
        ("@quit(something, something_else)", "@quit()"),
        ("incl   utils   as   u", "incl utils as u"),
        ("{ // first\n a; /* then */ b }", "{ a; b }"),
        ("fn(a, hey(), 3.12)", "fn(a, hey(), 3.12)"),
        ("return", "return"),
        ("return f(1)", "return f(1)"),
        ("'c'", "c"),
        ("true", "true"),
    ];
    for (input, printed) in cases {
        let (rest, node) = Construct::instruction(input).unwrap();
        assert_eq!(rest, "", "{}", input);
        assert_eq!(node.print(), printed);
    }
}

#[test]
fn t_kinds() {
    let kind = |input: &str| Construct::instruction(input).unwrap().1.kind();
    assert_eq!(kind("12"), InstrKind::Expression(None));
    assert_eq!(kind("a"), InstrKind::Expression(None));
    assert_eq!(kind("a + b"), InstrKind::Expression(None));
    assert_eq!(kind("f(a)"), InstrKind::Expression(None));
    assert_eq!(kind("a.f()"), InstrKind::Expression(None));
    assert_eq!(kind("A { 1 }"), InstrKind::Expression(None));
    assert_eq!(kind("{ 1 }"), InstrKind::Expression(None));
    assert_eq!(kind("{ 1; }"), InstrKind::Statement);
    assert_eq!(kind("{ }"), InstrKind::Statement);
    assert_eq!(kind("if c() { 1 } else { 2 }"), InstrKind::Expression(None));
    assert_eq!(kind("if c() { f(); }"), InstrKind::Statement);
    assert_eq!(kind("audit { 1 }"), InstrKind::Expression(None));
    assert_eq!(kind("audit { }"), InstrKind::Statement);
    assert_eq!(kind("x = 1"), InstrKind::Statement);
    assert_eq!(kind("loop {}"), InstrKind::Statement);
    assert_eq!(kind("func f() {}"), InstrKind::Statement);
    assert_eq!(kind("type A(a: int)"), InstrKind::Statement);
    assert_eq!(kind("incl a"), InstrKind::Statement);
    assert_eq!(kind("@dump()"), InstrKind::Statement);
    assert_eq!(kind("return 1"), InstrKind::Statement);
    assert!(Construct::instruction("return").unwrap().1.is_return());
    assert!(!Construct::instruction("returned").unwrap().1.is_return());
}
