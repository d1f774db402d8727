//! Binary operations and the table of their operators.

use vstd::prelude::*;
use vstd::string::*;
use crate::instruction::{InstrKind, Instruction, kind_of, Tree};
use crate::instruction::render::render;

verus! {

/// The operators that may stand between two operands.
#[derive(Clone, Copy, Debug, PartialEq, Eq, Structural)]
pub enum Operator {
    /// `||`
    Or,
    /// `&&`
    And,
    /// `|`
    BitOr,
    /// `^`
    BitXor,
    /// `&`
    BitAnd,
    /// `==`
    Equal,
    /// `!=`
    NotEqual,
    /// `<`
    Less,
    /// `<=`
    LessEqual,
    /// `>`
    Greater,
    /// `>=`
    GreaterEqual,
    /// `<<`
    ShiftLeft,
    /// `>>`
    ShiftRight,
    /// `+`
    Add,
    /// `-`
    Sub,
    /// `*`
    Mul,
    /// `/`
    Div,
    /// `%`
    Rem,
}

impl Operator {
    /// How tightly the operator binds: an operator of a higher level is
    /// applied before one of a lower level. Operators of one level are
    /// applied from left to right.
    pub open spec fn spec_precedence(self) -> u8 {
        match self {
            Operator::Or => 1,
            Operator::And => 2,
            Operator::BitOr => 3,
            Operator::BitXor => 4,
            Operator::BitAnd => 5,
            Operator::Equal | Operator::NotEqual => 6,
            Operator::Less | Operator::LessEqual | Operator::Greater | Operator::GreaterEqual => 7,
            Operator::ShiftLeft | Operator::ShiftRight => 8,
            Operator::Add | Operator::Sub => 9,
            Operator::Mul | Operator::Div | Operator::Rem => 10,
        }
    }

    /// The level of the operator in the precedence table.
    #[verifier::when_used_as_spec(spec_precedence)]
    pub fn precedence(self) -> (p: u8)
        ensures
            p == self.spec_precedence(),
    {
        match self {
            Operator::Or => 1,
            Operator::And => 2,
            Operator::BitOr => 3,
            Operator::BitXor => 4,
            Operator::BitAnd => 5,
            Operator::Equal | Operator::NotEqual => 6,
            Operator::Less | Operator::LessEqual | Operator::Greater | Operator::GreaterEqual => 7,
            Operator::ShiftLeft | Operator::ShiftRight => 8,
            Operator::Add | Operator::Sub => 9,
            Operator::Mul | Operator::Div | Operator::Rem => 10,
        }
    }

    /// The characters that denote the operator.
    pub open spec fn text(self) -> Seq<char> {
        match self {
            Operator::Or => seq!['|', '|'],
            Operator::And => seq!['&', '&'],
            Operator::BitOr => seq!['|'],
            Operator::BitXor => seq!['^'],
            Operator::BitAnd => seq!['&'],
            Operator::Equal => seq!['=', '='],
            Operator::NotEqual => seq!['!', '='],
            Operator::Less => seq!['<'],
            Operator::LessEqual => seq!['<', '='],
            Operator::Greater => seq!['>'],
            Operator::GreaterEqual => seq!['>', '='],
            Operator::ShiftLeft => seq!['<', '<'],
            Operator::ShiftRight => seq!['>', '>'],
            Operator::Add => seq!['+'],
            Operator::Sub => seq!['-'],
            Operator::Mul => seq!['*'],
            Operator::Div => seq!['/'],
            Operator::Rem => seq!['%'],
        }
    }

    /// The operator, as it is written in a source.
    pub fn symbol(self) -> (w: &'static str)
        ensures
            w@ == self.text(),
    {
        match self {
            Operator::Or => {
                proof {
                    reveal_strlit("||");
                }
                assert("||"@ =~= self.text());
                "||"
            },
            Operator::And => {
                proof {
                    reveal_strlit("&&");
                }
                assert("&&"@ =~= self.text());
                "&&"
            },
            Operator::BitOr => {
                proof {
                    reveal_strlit("|");
                }
                assert("|"@ =~= self.text());
                "|"
            },
            Operator::BitXor => {
                proof {
                    reveal_strlit("^");
                }
                assert("^"@ =~= self.text());
                "^"
            },
            Operator::BitAnd => {
                proof {
                    reveal_strlit("&");
                }
                assert("&"@ =~= self.text());
                "&"
            },
            Operator::Equal => {
                proof {
                    reveal_strlit("==");
                }
                assert("=="@ =~= self.text());
                "=="
            },
            Operator::NotEqual => {
                proof {
                    reveal_strlit("!=");
                }
                assert("!="@ =~= self.text());
                "!="
            },
            Operator::Less => {
                proof {
                    reveal_strlit("<");
                }
                assert("<"@ =~= self.text());
                "<"
            },
            Operator::LessEqual => {
                proof {
                    reveal_strlit("<=");
                }
                assert("<="@ =~= self.text());
                "<="
            },
            Operator::Greater => {
                proof {
                    reveal_strlit(">");
                }
                assert(">"@ =~= self.text());
                ">"
            },
            Operator::GreaterEqual => {
                proof {
                    reveal_strlit(">=");
                }
                assert(">="@ =~= self.text());
                ">="
            },
            Operator::ShiftLeft => {
                proof {
                    reveal_strlit("<<");
                }
                assert("<<"@ =~= self.text());
                "<<"
            },
            Operator::ShiftRight => {
                proof {
                    reveal_strlit(">>");
                }
                assert(">>"@ =~= self.text());
                ">>"
            },
            Operator::Add => {
                proof {
                    reveal_strlit("+");
                }
                assert("+"@ =~= self.text());
                "+"
            },
            Operator::Sub => {
                proof {
                    reveal_strlit("-");
                }
                assert("-"@ =~= self.text());
                "-"
            },
            Operator::Mul => {
                proof {
                    reveal_strlit("*");
                }
                assert("*"@ =~= self.text());
                "*"
            },
            Operator::Div => {
                proof {
                    reveal_strlit("/");
                }
                assert("/"@ =~= self.text());
                "/"
            },
            Operator::Rem => {
                proof {
                    reveal_strlit("%");
                }
                assert("%"@ =~= self.text());
                "%"
            },
        }
    }
}

/// An operator applied to a left and a right operand.
#[derive(Debug)]
pub struct BinaryOp {
    op: Operator,
    lhs: Box<Instruction>,
    rhs: Box<Instruction>,
}

impl View for BinaryOp {
    type V = Tree;

    closed spec fn view(&self) -> Tree
        decreases self,
    {
        Tree::BinaryOp {
            op: self.op,
            lhs: Box::new(self.lhs.tree()),
            rhs: Box::new(self.rhs.tree()),
        }
    }
}

impl BinaryOp {
    /// Apply `op` to `lhs` and `rhs`.
    pub fn new(lhs: Instruction, rhs: Instruction, op: Operator) -> (b: BinaryOp)
        ensures
            b@ == (Tree::BinaryOp { op, lhs: Box::new(lhs@), rhs: Box::new(rhs@) }),
    {
        BinaryOp { op, lhs: Box::new(lhs), rhs: Box::new(rhs) }
    }

    /// The operator that is applied.
    pub fn operator(&self) -> (o: Operator)
        ensures
            self@ matches Tree::BinaryOp { op, .. } && o == op,
    {
        self.op
    }

    /// The operand on the left of the operator.
    pub fn lhs(&self) -> (i: &Instruction)
        ensures
            self@ matches Tree::BinaryOp { lhs, .. } && i@ == *lhs,
    {
        &self.lhs
    }

    /// The operand on the right of the operator.
    pub fn rhs(&self) -> (i: &Instruction)
        ensures
            self@ matches Tree::BinaryOp { rhs, .. } && i@ == *rhs,
    {
        &self.rhs
    }

    /// An operation yields a value.
    pub fn kind(&self) -> (k: InstrKind)
        ensures
            k == kind_of(self@),
    {
        InstrKind::Expression(None)
    }

    /// Write the operation out behind what `out` holds.
    pub fn write(&self, out: &mut String)
        ensures
            final(out)@ == old(out)@ + render(self@),
        decreases self,
    {
        let ghost before = out@;
        self.lhs.write(out);
        out.append(" ");
        out.append(self.op.symbol());
        out.append(" ");
        self.rhs.write(out);
        assert(out@ =~= before + render(self@));
    }

    /// The printable form of the operation.
    pub fn print(&self) -> (s: String)
        ensures
            s@ == render(self@),
    {
        let mut s = String::new();
        self.write(&mut s);
        assert(s@ =~= render(self@));
        s
    }
}

/// The tree of a binary operation is a binary operation.
pub broadcast proof fn binary_op_shape(node: BinaryOp)
    ensures
        (#[trigger] node@) is BinaryOp,
{
}

} // verus!
