use jinko::error::ErrorKind;
use jinko::instruction::{BinaryOp, Instruction, Operator};
use jinko::parser::shunting_yard::ShuntingYard;
use jinko::parser::Construct;
use jinko::value::JinkInt;

fn operation(input: &str) -> BinaryOp {
    match Construct::binary_op(input).unwrap().1 {
        Instruction::BinaryOp(op) => op,
        other => panic!("not a binary operation: {:?}", other),
    }
}

fn inner(node: &Instruction) -> &BinaryOp {
    match node {
        Instruction::BinaryOp(op) => op,
        other => panic!("not a binary operation: {:?}", other),
    }
}

#[test]
fn t_precedence_addition_then_multiplication() {
    let root = operation("1 + 2 * 3");
    assert_eq!(root.operator(), Operator::Add);
    assert_eq!(root.lhs().print(), "1");
    let right = inner(root.rhs());
    assert_eq!(right.operator(), Operator::Mul);
    assert_eq!(right.lhs().print(), "2");
    assert_eq!(right.rhs().print(), "3");
}

#[test]
fn t_precedence_multiplication_then_addition() {
    let root = operation("1 * 2 + 3");
    assert_eq!(root.operator(), Operator::Add);
    assert_eq!(root.rhs().print(), "3");
    let left = inner(root.lhs());
    assert_eq!(left.operator(), Operator::Mul);
    assert_eq!(left.lhs().print(), "1");
    assert_eq!(left.rhs().print(), "2");
}

#[test]
fn t_operators_of_one_level_from_left_to_right() {
    let root = operation("10 - 4 - 3");
    assert_eq!(root.operator(), Operator::Sub);
    assert_eq!(root.rhs().print(), "3");
    let left = inner(root.lhs());
    assert_eq!(left.operator(), Operator::Sub);
    assert_eq!(left.lhs().print(), "10");
    assert_eq!(left.rhs().print(), "4");

    let root = operation("8 / 4 * 2 % 3");
    assert_eq!(root.operator(), Operator::Rem);
    assert_eq!(inner(root.lhs()).operator(), Operator::Mul);
    assert_eq!(inner(inner(root.lhs()).lhs()).operator(), Operator::Div);
}

#[test]
fn t_each_level_nests_inside_the_next_lower_one() {
    let root = operation("a || b && c | d ^ e & f == g < h << i + j * k");
    let mut node = &root;
    let expected = [
        Operator::Or,
        Operator::And,
        Operator::BitOr,
        Operator::BitXor,
        Operator::BitAnd,
        Operator::Equal,
        Operator::Less,
        Operator::ShiftLeft,
        Operator::Add,
    ];
    for op in expected {
        assert_eq!(node.operator(), op);
        assert!(!matches!(node.lhs(), Instruction::BinaryOp(_)));
        node = inner(node.rhs());
    }
    assert_eq!(node.operator(), Operator::Mul);
    assert_eq!(node.lhs().print(), "j");
    assert_eq!(node.rhs().print(), "k");
}

#[test]
fn t_mixed_levels() {
    let root = operation("a * b + c * d - e");
    assert_eq!(root.operator(), Operator::Sub);
    assert_eq!(root.rhs().print(), "e");
    let sum = inner(root.lhs());
    assert_eq!(sum.operator(), Operator::Add);
    assert_eq!(inner(sum.lhs()).print(), "a * b");
    assert_eq!(inner(sum.rhs()).print(), "c * d");
    assert_eq!(root.print(), "a * b + c * d - e");
}

#[test]
fn t_comparisons_and_shifts() {
    assert_eq!(operation("a << 2").operator(), Operator::ShiftLeft);
    assert_eq!(operation("a >> 2").operator(), Operator::ShiftRight);
    assert_eq!(operation("a > 2").operator(), Operator::Greater);
    assert_eq!(operation("a >= 2").operator(), Operator::GreaterEqual);
    assert_eq!(operation("a <= 2").operator(), Operator::LessEqual);
    assert_eq!(operation("a != 2").operator(), Operator::NotEqual);
    assert_eq!(operation("a == 2").operator(), Operator::Equal);
    assert_eq!(operation("a<b").operator(), Operator::Less);
}

#[test]
fn t_operands() {
    let root = operation("f(1, 2) + -3");
    assert_eq!(root.lhs().print(), "f(1, 2)");
    assert_eq!(root.rhs().print(), "-3");
    let root = operation("x /* times */ * 'c'");
    assert_eq!(root.operator(), Operator::Mul);
    assert_eq!(root.rhs().print(), "c");
    let root = operation("1.5 - \"s\"");
    assert_eq!(root.lhs().print(), "1.5");
    assert_eq!(root.rhs().print(), "\"s\"");
}

#[test]
fn t_binary_op_leaves_what_follows_the_run() {
    assert_eq!(Construct::binary_op("a + b; c").unwrap().0, "; c");
    assert_eq!(Construct::binary_op("a + b }").unwrap().0, "}");
    assert_eq!(Construct::binary_op("  a + b  , c").unwrap().0, ", c");
    assert_eq!(Construct::binary_op("a + b else").unwrap().0, "else");
}

#[test]
fn t_single_operand_is_no_operation() {
    let e = Construct::binary_op("a").unwrap_err();
    assert_eq!(e.kind, ErrorKind::ExpectedTokenMissing);
    assert_eq!(e.remaining, "a");
    assert_eq!(Construct::binary_op("12;").unwrap_err().kind, ErrorKind::ExpectedTokenMissing);
    assert_eq!(Construct::binary_op("f(x)").unwrap_err().kind, ErrorKind::ExpectedTokenMissing);
}

#[test]
fn t_unknown_operator_fails_the_whole_run() {
    let e = Construct::binary_op("a + b ? c").unwrap_err();
    assert_eq!(e.kind, ErrorKind::ConstructNotRecognized);
    assert_eq!(e.remaining, "a + b ? c");
    assert_eq!(Construct::binary_op("a ? 12").unwrap_err().kind, ErrorKind::ConstructNotRecognized);
    assert_eq!(Construct::binary_op("a = b").unwrap_err().kind, ErrorKind::ConstructNotRecognized);
    assert_eq!(Construct::binary_op("a + b ~").unwrap_err().kind, ErrorKind::ConstructNotRecognized);
}

#[test]
fn t_operator_without_operand_fails() {
    assert!(Construct::binary_op("a +").is_err());
    assert!(Construct::binary_op("a + ;").is_err());
    assert!(Construct::binary_op("a + * b").is_err());
    assert!(Construct::binary_op("+ a").is_err());
    assert!(Construct::binary_op("").is_err());
}

#[test]
fn t_instruction_prefers_the_operation() {
    let (rest, node) = Construct::instruction("a + b").unwrap();
    assert_eq!(rest, "");
    assert!(matches!(node, Instruction::BinaryOp(_)));
    // the run fails, and the variable alone is accepted
    let (rest, node) = Construct::instruction("a + b ? c").unwrap();
    assert_eq!(rest, "+ b ? c");
    assert!(matches!(node, Instruction::Var(_)));
}

#[test]
fn t_shunting_yard_by_hand() {
    let num = |i: i64| Instruction::Int(JinkInt::from(i));
    let mut yard = ShuntingYard::new(num(1));
    assert!(!yard.is_operation());
    yard.push(Operator::Add, num(2));
    assert!(yard.is_operation());
    yard.push(Operator::Mul, num(3));
    yard.push(Operator::Sub, num(4));
    let tree = yard.finish();
    let root = inner(&tree);
    assert_eq!(root.operator(), Operator::Sub);
    assert_eq!(root.rhs().print(), "4");
    let sum = inner(root.lhs());
    assert_eq!(sum.operator(), Operator::Add);
    assert_eq!(sum.lhs().print(), "1");
    assert_eq!(inner(sum.rhs()).operator(), Operator::Mul);

    let alone = ShuntingYard::new(num(7)).finish();
    assert_eq!(alone.print(), "7");
}
