//! The lexer: what the terminal symbols of the language are, and how they
//! are recognised under a cursor.
//!
//! Each lexeme is stated as a function of the characters of the text and of
//! a cursor, and recognised by a method of [`Token`] that is proved to
//! compute that function. A lexeme that is not at the cursor is no error of
//! the lexer: the method says so and leaves the decision to the rule that
//! asked.

use vstd::prelude::*;
use crate::error::ErrorKind;
use crate::instruction::Operator;
use crate::parser::source::Source;

verus! {

/// `nom::character::is_alphabetic` holds of the ASCII letters and of no
/// other byte.
pub assume_specification[ nom::character::is_alphabetic ](chr: u8) -> (r: bool)
    ensures
        r == ((0x41 <= chr && chr <= 0x5A) || (0x61 <= chr && chr <= 0x7A)),
;

/// `nom::character::is_digit` holds of the ASCII digits and of no other
/// byte.
pub assume_specification[ nom::character::is_digit ](chr: u8) -> (r: bool)
    ensures
        r == (0x30 <= chr && chr <= 0x39),
;

/// An ASCII letter.
pub open spec fn is_letter(c: char) -> bool {
    ('a' <= c && c <= 'z') || ('A' <= c && c <= 'Z')
}

/// An ASCII digit.
pub open spec fn is_decimal_digit(c: char) -> bool {
    '0' <= c && c <= '9'
}

/// A character that starts or continues an operator. A run of operands
/// may not be followed by one that starts no operator of the table.
pub open spec fn is_operator_char(c: char) -> bool {
    c == '+' || c == '-' || c == '*' || c == '/' || c == '%' || c == '<' || c == '>' || c == '='
        || c == '!' || c == '&' || c == '|' || c == '^' || c == '~' || c == '?'
}

/// The sets of characters that the lexer reads in runs.
#[derive(Clone, Copy, Debug, PartialEq, Eq, Structural)]
pub enum CharClass {
    /// Space, tab, line feed and carriage return.
    Whitespace,
    /// The ASCII digits.
    Digit,
    /// The ASCII letters.
    Letter,
    /// What a name is made of: ASCII letters, digits and the underscore.
    Word,
    /// Everything but the line feed: what a comment holds up to the end of
    /// its line.
    Line,
    /// Everything but the double quote: what a string literal holds.
    Quoted,
}

impl CharClass {
    /// Whether `c` belongs to the class.
    pub open spec fn has(self, c: char) -> bool {
        match self {
            CharClass::Whitespace => c == ' ' || c == '\t' || c == '\n' || c == '\r',
            CharClass::Digit => is_decimal_digit(c),
            CharClass::Letter => is_letter(c),
            CharClass::Word => is_letter(c) || is_decimal_digit(c) || c == '_',
            CharClass::Line => c != '\n',
            CharClass::Quoted => c != '"',
        }
    }

    /// Whether `c` belongs to the class.
    pub fn contains(self, c: char) -> (r: bool)
        ensures
            r == self.has(c),
    {
        match self {
            CharClass::Whitespace => c == ' ' || c == '\t' || c == '\n' || c == '\r',
            CharClass::Digit => c <= '\x7f' && nom::character::is_digit(#[verifier::truncate] (c as u8)),
            CharClass::Letter => c <= '\x7f' && nom::character::is_alphabetic(#[verifier::truncate] (c as u8)),
            CharClass::Word => c == '_' || (c <= '\x7f' && (nom::character::is_alphabetic(#[verifier::truncate] (c as u8))
                || nom::character::is_digit(#[verifier::truncate] (c as u8)))),
            CharClass::Line => c != '\n',
            CharClass::Quoted => c != '"',
        }
    }
}

/// The reserved words. None of them is a name.
#[derive(Clone, Copy, Debug, PartialEq, Eq, Structural)]
pub enum Keyword {
    Func,
    Ext,
    Test,
    Mock,
    Type,
    If,
    Else,
    Audit,
    Loop,
    While,
    For,
    In,
    Incl,
    As,
    Return,
    Mut,
    True,
    False,
}

impl Keyword {
    /// The characters of the word.
    pub open spec fn text(self) -> Seq<char> {
        match self {
            Keyword::Func => seq!['f', 'u', 'n', 'c'],
            Keyword::Ext => seq!['e', 'x', 't'],
            Keyword::Test => seq!['t', 'e', 's', 't'],
            Keyword::Mock => seq!['m', 'o', 'c', 'k'],
            Keyword::Type => seq!['t', 'y', 'p', 'e'],
            Keyword::If => seq!['i', 'f'],
            Keyword::Else => seq!['e', 'l', 's', 'e'],
            Keyword::Audit => seq!['a', 'u', 'd', 'i', 't'],
            Keyword::Loop => seq!['l', 'o', 'o', 'p'],
            Keyword::While => seq!['w', 'h', 'i', 'l', 'e'],
            Keyword::For => seq!['f', 'o', 'r'],
            Keyword::In => seq!['i', 'n'],
            Keyword::Incl => seq!['i', 'n', 'c', 'l'],
            Keyword::As => seq!['a', 's'],
            Keyword::Return => seq!['r', 'e', 't', 'u', 'r', 'n'],
            Keyword::Mut => seq!['m', 'u', 't'],
            Keyword::True => seq!['t', 'r', 'u', 'e'],
            Keyword::False => seq!['f', 'a', 'l', 's', 'e'],
        }
    }

    /// The word, as it is written in a source.
    pub fn word(self) -> (w: &'static str)
        ensures
            w@ == self.text(),
    {
        match self {
            Keyword::Func => {
                proof {
                    reveal_strlit("func");
                }
                assert("func"@ =~= self.text());
                "func"
            },
            Keyword::Ext => {
                proof {
                    reveal_strlit("ext");
                }
                assert("ext"@ =~= self.text());
                "ext"
            },
            Keyword::Test => {
                proof {
                    reveal_strlit("test");
                }
                assert("test"@ =~= self.text());
                "test"
            },
            Keyword::Mock => {
                proof {
                    reveal_strlit("mock");
                }
                assert("mock"@ =~= self.text());
                "mock"
            },
            Keyword::Type => {
                proof {
                    reveal_strlit("type");
                }
                assert("type"@ =~= self.text());
                "type"
            },
            Keyword::If => {
                proof {
                    reveal_strlit("if");
                }
                assert("if"@ =~= self.text());
                "if"
            },
            Keyword::Else => {
                proof {
                    reveal_strlit("else");
                }
                assert("else"@ =~= self.text());
                "else"
            },
            Keyword::Audit => {
                proof {
                    reveal_strlit("audit");
                }
                assert("audit"@ =~= self.text());
                "audit"
            },
            Keyword::Loop => {
                proof {
                    reveal_strlit("loop");
                }
                assert("loop"@ =~= self.text());
                "loop"
            },
            Keyword::While => {
                proof {
                    reveal_strlit("while");
                }
                assert("while"@ =~= self.text());
                "while"
            },
            Keyword::For => {
                proof {
                    reveal_strlit("for");
                }
                assert("for"@ =~= self.text());
                "for"
            },
            Keyword::In => {
                proof {
                    reveal_strlit("in");
                }
                assert("in"@ =~= self.text());
                "in"
            },
            Keyword::Incl => {
                proof {
                    reveal_strlit("incl");
                }
                assert("incl"@ =~= self.text());
                "incl"
            },
            Keyword::As => {
                proof {
                    reveal_strlit("as");
                }
                assert("as"@ =~= self.text());
                "as"
            },
            Keyword::Return => {
                proof {
                    reveal_strlit("return");
                }
                assert("return"@ =~= self.text());
                "return"
            },
            Keyword::Mut => {
                proof {
                    reveal_strlit("mut");
                }
                assert("mut"@ =~= self.text());
                "mut"
            },
            Keyword::True => {
                proof {
                    reveal_strlit("true");
                }
                assert("true"@ =~= self.text());
                "true"
            },
            Keyword::False => {
                proof {
                    reveal_strlit("false");
                }
                assert("false"@ =~= self.text());
                "false"
            },
        }
    }
}

/// Where the run of characters of `class` that starts at `pos` ends: the
/// first position from `pos` on that holds a character outside the class,
/// or the end of the text.
#[verifier::opaque]
pub open spec fn run_end(s: Seq<char>, pos: int, class: CharClass) -> int
    decreases s.len() - pos,
{
    if 0 <= pos < s.len() && class.has(s[pos]) {
        run_end(s, pos + 1, class)
    } else {
        pos
    }
}

/// The cursor behind the character `c`, if it stands at `pos`.
pub open spec fn symbol(s: Seq<char>, pos: int, c: char) -> Option<int> {
    if 0 <= pos < s.len() && s[pos] == c {
        Some(pos + 1)
    } else {
        None
    }
}

/// The cursor behind `word`, if the text goes on with it at `pos`.
pub open spec fn tag(s: Seq<char>, pos: int, word: Seq<char>) -> Option<int> {
    if 0 <= pos && pos + word.len() <= s.len() && s.subrange(pos, pos + word.len()) == word {
        Some(pos + word.len())
    } else {
        None
    }
}

/// The cursor behind the reserved word `k`, if it stands at `pos` as a word
/// of its own: `mut` does not start `mut_x`.
#[verifier::opaque]
pub open spec fn keyword(s: Seq<char>, pos: int, k: Keyword) -> Option<int> {
    match tag(s, pos, k.text()) {
        Some(end) => if end < s.len() && CharClass::Word.has(s[end]) {
            None
        } else {
            Some(end)
        },
        None => None,
    }
}

/// Whether `word` is one of the reserved words.
pub open spec fn is_reserved(word: Seq<char>) -> bool {
    exists|k: Keyword| #[trigger] k.text() == word
}

/// Whether `word` holds a letter.
pub open spec fn has_letter(word: Seq<char>) -> bool {
    exists|i: int| 0 <= i < word.len() && is_letter(#[trigger] word[i])
}

/// The name at `pos`: the longest run of letters, digits and underscores,
/// which holds at least one letter and is no reserved word.
#[verifier::opaque]
pub open spec fn identifier(s: Seq<char>, pos: int) -> Option<(int, Seq<char>)> {
    let end = run_end(s, pos, CharClass::Word);
    let word = s.subrange(pos, end);
    if 0 <= pos < end <= s.len() && has_letter(word) && !is_reserved(word) {
        Some((end, word))
    } else {
        None
    }
}

/// The operator at `pos`. Where one operator starts another, as `<` starts
/// `<=`, the longer one is meant.
#[verifier::opaque]
pub open spec fn operator_at(s: Seq<char>, pos: int) -> Option<(int, Operator)> {
    if tag(s, pos, Operator::Or.text()) is Some {
        Some((pos + 2, Operator::Or))
    } else if tag(s, pos, Operator::And.text()) is Some {
        Some((pos + 2, Operator::And))
    } else if tag(s, pos, Operator::Equal.text()) is Some {
        Some((pos + 2, Operator::Equal))
    } else if tag(s, pos, Operator::NotEqual.text()) is Some {
        Some((pos + 2, Operator::NotEqual))
    } else if tag(s, pos, Operator::LessEqual.text()) is Some {
        Some((pos + 2, Operator::LessEqual))
    } else if tag(s, pos, Operator::GreaterEqual.text()) is Some {
        Some((pos + 2, Operator::GreaterEqual))
    } else if tag(s, pos, Operator::ShiftLeft.text()) is Some {
        Some((pos + 2, Operator::ShiftLeft))
    } else if tag(s, pos, Operator::ShiftRight.text()) is Some {
        Some((pos + 2, Operator::ShiftRight))
    } else if symbol(s, pos, '|') is Some {
        Some((pos + 1, Operator::BitOr))
    } else if symbol(s, pos, '^') is Some {
        Some((pos + 1, Operator::BitXor))
    } else if symbol(s, pos, '&') is Some {
        Some((pos + 1, Operator::BitAnd))
    } else if symbol(s, pos, '<') is Some {
        Some((pos + 1, Operator::Less))
    } else if symbol(s, pos, '>') is Some {
        Some((pos + 1, Operator::Greater))
    } else if symbol(s, pos, '+') is Some {
        Some((pos + 1, Operator::Add))
    } else if symbol(s, pos, '-') is Some {
        Some((pos + 1, Operator::Sub))
    } else if symbol(s, pos, '*') is Some {
        Some((pos + 1, Operator::Mul))
    } else if symbol(s, pos, '/') is Some {
        Some((pos + 1, Operator::Div))
    } else if symbol(s, pos, '%') is Some {
        Some((pos + 1, Operator::Rem))
    } else {
        None
    }
}

/// The cursor behind the first `*/` at or after `pos`, if there is one.
pub open spec fn comment_close(s: Seq<char>, pos: int) -> Option<int>
    decreases s.len() - pos,
{
    if pos < 0 || pos + 2 > s.len() {
        None
    } else if s[pos] == '*' && s[pos + 1] == '/' {
        Some(pos + 2)
    } else {
        comment_close(s, pos + 1)
    }
}

/// Where the comment that starts at `pos` ends, or `pos` if none starts
/// there. `//` and `#` open a comment that runs to the end of the line;
/// `/*` opens one that runs to the next `*/`, and opens none without it.
pub open spec fn comment_end(s: Seq<char>, pos: int) -> int {
    if tag(s, pos, seq!['/', '/']) is Some {
        run_end(s, pos + 2, CharClass::Line)
    } else if symbol(s, pos, '#') is Some {
        run_end(s, pos + 1, CharClass::Line)
    } else if tag(s, pos, seq!['/', '*']) is Some {
        match comment_close(s, pos + 2) {
            Some(end) => end,
            None => pos,
        }
    } else {
        pos
    }
}

/// Where the insignificant input that starts at `pos` ends: the cursor
/// behind all the whitespace and all the comments that follow each other
/// from `pos` on.
#[verifier::opaque]
pub open spec fn skip_extra(s: Seq<char>, pos: int) -> int
    decreases s.len() - pos,
{
    if pos < 0 || pos >= s.len() {
        pos
    } else if CharClass::Whitespace.has(s[pos]) {
        skip_extra(s, pos + 1)
    } else {
        let end = comment_end(s, pos);
        if pos < end <= s.len() {
            skip_extra(s, end)
        } else {
            pos
        }
    }
}

/// The number that a digit stands for.
pub open spec fn digit_value(c: char) -> int {
    c as int - '0' as int
}

/// The number that a run of digits denotes in base ten.
pub open spec fn decimal(digits: Seq<char>) -> int
    decreases digits.len(),
{
    if digits.len() == 0 {
        0
    } else {
        decimal(digits.drop_last()) * 10 + digit_value(digits.last())
    }
}

/// The cursor behind a minus sign at `pos`, or `pos` if there is none.
pub open spec fn after_sign(s: Seq<char>, pos: int) -> int {
    if symbol(s, pos, '-') is Some {
        pos + 1
    } else {
        pos
    }
}

/// The integer literal at `pos`: an optional minus sign and a run of
/// digits. The literal is malformed if its value is no signed 64-bit
/// integer.
#[verifier::opaque]
pub open spec fn int_constant(s: Seq<char>, pos: int) -> Result<(int, i64), ErrorKind> {
    let start = after_sign(s, pos);
    let end = run_end(s, start, CharClass::Digit);
    if 0 <= pos && start < end <= s.len() {
        let magnitude = decimal(s.subrange(start, end));
        let value = if start > pos {
            -magnitude
        } else {
            magnitude
        };
        if i64::MIN <= value <= i64::MAX {
            Ok((end, value as i64))
        } else {
            Err(ErrorKind::MalformedLiteral)
        }
    } else {
        Err(ErrorKind::ExpectedTokenMissing)
    }
}

/// The floating point literal at `pos`: an optional minus sign, a run of
/// digits, a dot and another run of digits. Its value is the text itself.
#[verifier::opaque]
pub open spec fn float_constant(s: Seq<char>, pos: int) -> Result<(int, Seq<char>), ErrorKind> {
    let start = after_sign(s, pos);
    let dot = run_end(s, start, CharClass::Digit);
    let end = run_end(s, dot + 1, CharClass::Digit);
    if 0 <= pos && start < dot && symbol(s, dot, '.') is Some && dot + 1 < end <= s.len() {
        Ok((end, s.subrange(pos, end)))
    } else {
        Err(ErrorKind::ExpectedTokenMissing)
    }
}

/// The character literal at `pos`: one character between single quotes.
/// A single quote that no such literal follows is a malformed literal.
#[verifier::opaque]
pub open spec fn char_constant(s: Seq<char>, pos: int) -> Result<(int, char), ErrorKind> {
    if symbol(s, pos, '\'') is None {
        Err(ErrorKind::ExpectedTokenMissing)
    } else if symbol(s, pos + 2, '\'') is Some {
        Ok((pos + 3, s[pos + 1]))
    } else {
        Err(ErrorKind::MalformedLiteral)
    }
}

/// The string literal at `pos`: the characters between a double quote and
/// the next one. A double quote that is never closed is a malformed
/// literal.
#[verifier::opaque]
pub open spec fn string_constant(s: Seq<char>, pos: int) -> Result<(int, Seq<char>), ErrorKind> {
    if symbol(s, pos, '"') is None {
        Err(ErrorKind::ExpectedTokenMissing)
    } else {
        let end = run_end(s, pos + 1, CharClass::Quoted);
        if pos < end < s.len() {
            Ok((end + 1, s.subrange(pos + 1, end)))
        } else {
            Err(ErrorKind::MalformedLiteral)
        }
    }
}

/// The boolean literal at `pos`: the word `true` or the word `false`.
#[verifier::opaque]
pub open spec fn bool_constant(s: Seq<char>, pos: int) -> Result<(int, bool), ErrorKind> {
    match keyword(s, pos, Keyword::True) {
        Some(end) => Ok((end, true)),
        None => match keyword(s, pos, Keyword::False) {
            Some(end) => Ok((end, false)),
            None => Err(ErrorKind::ExpectedTokenMissing),
        },
    }
}

/// A run starts at its cursor, ends inside the text, holds only characters
/// of its class and cannot be extended.
pub proof fn run_is_longest(s: Seq<char>, pos: int, class: CharClass)
    ensures
        pos <= run_end(s, pos, class),
        0 <= pos <= s.len() ==> run_end(s, pos, class) <= s.len(),
        forall|i: int| pos <= i < run_end(s, pos, class) && 0 <= pos ==> class.has(#[trigger] s[i]),
        0 <= pos && run_end(s, pos, class) < s.len() ==> !class.has(s[run_end(s, pos, class)]),
    decreases s.len() - pos,
{
    reveal(run_end);
    if 0 <= pos < s.len() && class.has(s[pos]) {
        run_is_longest(s, pos + 1, class);
    }
}

/// A run never moves the cursor back nor out of the text.
pub broadcast proof fn run_bounds(s: Seq<char>, pos: int, class: CharClass)
    ensures
        pos <= #[trigger] run_end(s, pos, class),
        run_end(s, pos, class) == pos || (0 <= pos && run_end(s, pos, class) <= s.len()),
{
    reveal(run_end);
    run_is_longest(s, pos, class);
}

/// Skipping insignificant input never moves the cursor back nor out of the
/// text.
pub broadcast proof fn skip_extra_bounds(s: Seq<char>, pos: int)
    ensures
        pos <= #[trigger] skip_extra(s, pos),
        skip_extra(s, pos) == pos || (0 <= pos && skip_extra(s, pos) <= s.len()),
    decreases s.len() - pos,
{
    reveal(skip_extra);
    if pos < 0 || pos >= s.len() {
    } else if CharClass::Whitespace.has(s[pos]) {
        skip_extra_bounds(s, pos + 1);
    } else {
        let end = comment_end(s, pos);
        if pos < end <= s.len() {
            skip_extra_bounds(s, end);
        }
    }
}

/// Every reserved word has at least two characters.
pub broadcast proof fn keyword_bounds(s: Seq<char>, pos: int, k: Keyword)
    ensures
        (#[trigger] keyword(s, pos, k)) matches Some(end) ==> 0 <= pos && pos + 2 <= end <= s.len(),
{
    reveal(keyword);
}

/// A name has at least one character, and is what stands in the text.
pub broadcast proof fn identifier_bounds(s: Seq<char>, pos: int)
    ensures
        (#[trigger] identifier(s, pos)) matches Some((end, name)) ==> 0 <= pos < end <= s.len()
            && name == s.subrange(pos, end),
{
    reveal(identifier);
}

/// An operator has one or two characters.
pub broadcast proof fn operator_bounds(s: Seq<char>, pos: int)
    ensures
        (#[trigger] operator_at(s, pos)) matches Some((end, op)) ==> 0 <= pos < end <= s.len() && end
            == pos + op.text().len() && tag(s, pos, op.text()) is Some,
{
    reveal(operator_at);
    if let Some((end, op)) = operator_at(s, pos) {
        assert(0 <= pos < s.len());
        if op.text().len() == 1 {
            assert(s.subrange(pos, pos + 1) =~= op.text());
        }
    }
}

/// An integer literal has at least one character.
pub broadcast proof fn int_constant_bounds(s: Seq<char>, pos: int)
    ensures
        (#[trigger] int_constant(s, pos)) matches Ok((end, _)) ==> 0 <= pos < end <= s.len(),
{
    reveal(int_constant);
    run_is_longest(s, after_sign(s, pos), CharClass::Digit);
}

/// A floating point literal has at least one character.
pub broadcast proof fn float_constant_bounds(s: Seq<char>, pos: int)
    ensures
        (#[trigger] float_constant(s, pos)) matches Ok((end, _)) ==> 0 <= pos < end <= s.len(),
{
    reveal(float_constant);
    run_is_longest(s, after_sign(s, pos), CharClass::Digit);
}

/// A character literal has three characters.
pub broadcast proof fn char_constant_bounds(s: Seq<char>, pos: int)
    ensures
        (#[trigger] char_constant(s, pos)) matches Ok((end, _)) ==> 0 <= pos && pos + 3 == end <= s.len(),
{
    reveal(char_constant);
}

/// A string literal has at least its two quotes.
pub broadcast proof fn string_constant_bounds(s: Seq<char>, pos: int)
    ensures
        (#[trigger] string_constant(s, pos)) matches Ok((end, _)) ==> 0 <= pos && pos + 2 <= end <= s.len(),
{
    reveal(string_constant);
    run_is_longest(s, pos + 1, CharClass::Quoted);
}

/// A boolean literal has at least one character.
pub broadcast proof fn bool_constant_bounds(s: Seq<char>, pos: int)
    ensures
        (#[trigger] bool_constant(s, pos)) matches Ok((end, _)) ==> 0 <= pos < end <= s.len(),
{
    reveal(bool_constant);
    keyword_bounds(s, pos, Keyword::True);
    keyword_bounds(s, pos, Keyword::False);
}

/// A run is decided by its end: where every character from the cursor up
/// to `end` is of the class and the character at `end` is not, the run ends
/// at `end`.
pub proof fn run_is_determined(s: Seq<char>, pos: int, class: CharClass, end: int)
    requires
        0 <= pos <= end <= s.len(),
        forall|i: int| pos <= i < end ==> class.has(#[trigger] s[i]),
        end < s.len() ==> !class.has(s[end]),
    ensures
        run_end(s, pos, class) == end,
    decreases end - pos,
{
    reveal(run_end);
    if pos < end {
        run_is_determined(s, pos + 1, class, end);
    }
}

/// A name is a whole word: it holds only letters, digits and underscores,
/// among them a letter, nothing of that kind follows it, and it is no
/// reserved word.
pub proof fn names_are_whole_words(s: Seq<char>, pos: int)
    ensures
        identifier(s, pos) matches Some((end, name)) ==> {
            &&& name == s.subrange(pos, end)
            &&& forall|i: int| pos <= i < end ==> CharClass::Word.has(#[trigger] s[i])
            &&& end < s.len() ==> !CharClass::Word.has(s[end])
            &&& has_letter(name)
            &&& !is_reserved(name)
        },
{
    reveal(identifier);
    run_is_longest(s, pos, CharClass::Word);
}

/// A reserved word is recognised only as a whole word: spelled as it is,
/// and followed by nothing that a name could go on with. So `mut` is not
/// recognised at the start of `mut_x`.
pub proof fn keywords_are_whole_words(s: Seq<char>, pos: int, k: Keyword)
    ensures
        keyword(s, pos, k) matches Some(end) ==> {
            &&& s.subrange(pos, end) == k.text()
            &&& end < s.len() ==> !CharClass::Word.has(s[end])
        },
        0 <= pos < s.len() && tag(s, pos, k.text()) is Some && pos + k.text().len() < s.len()
            && CharClass::Word.has(s[pos + k.text().len()]) ==> keyword(s, pos, k) is None,
{
    reveal(keyword);
}

/// A reserved word is never taken for a name.
pub proof fn keywords_are_no_names(s: Seq<char>, pos: int, k: Keyword)
    ensures
        keyword(s, pos, k) is Some ==> identifier(s, pos) is None,
{
    reveal(keyword);
    reveal(identifier);
    if let Some(end) = keyword(s, pos, k) {
        let word = k.text();
        assert(s.subrange(pos, end) == word);
        assert forall|i: int| pos <= i < end implies CharClass::Word.has(#[trigger] s[i]) by {
            assert(s[i] == s.subrange(pos, end)[i - pos]);
            assert(forall|j: int| 0 <= j < word.len() ==> CharClass::Word.has(#[trigger] word[j]));
        }
        run_is_determined(s, pos, CharClass::Word, end);
        assert(is_reserved(s.subrange(pos, end)));
    }
}

/// Skipping is complete: where it ends, neither whitespace nor a comment
/// starts, and there is nothing left to skip.
pub proof fn skipping_is_complete(s: Seq<char>, pos: int)
    requires
        0 <= pos <= s.len(),
    ensures
        ({
            let end = skip_extra(s, pos);
            &&& skip_extra(s, end) == end
            &&& end < s.len() ==> !CharClass::Whitespace.has(s[end]) && !(end < comment_end(s, end)
                <= s.len())
        }),
    decreases s.len() - pos,
{
    reveal(skip_extra);
    if pos < s.len() {
        if CharClass::Whitespace.has(s[pos]) {
            skipping_is_complete(s, pos + 1);
        } else {
            let end = comment_end(s, pos);
            if pos < end <= s.len() {
                skipping_is_complete(s, end);
            }
        }
    }
}

/// Of the operators that are written at the cursor, the longest is
/// recognised.
pub proof fn operators_are_longest(s: Seq<char>, pos: int, other: Operator)
    ensures
        operator_at(s, pos) matches Some((end, op)) ==> (tag(s, pos, other.text()) is Some
            ==> other.text().len() <= op.text().len()),
        tag(s, pos, other.text()) is Some ==> operator_at(s, pos) is Some,
{
    reveal(operator_at);
    if tag(s, pos, other.text()) is Some {
        if other.text().len() == 1 {
            assert(s.subrange(pos, pos + 1)[0] == other.text()[0]);
        }
    }
}

pub broadcast group group_token_bounds {
    run_bounds,
    skip_extra_bounds,
    keyword_bounds,
    identifier_bounds,
    operator_bounds,
    int_constant_bounds,
    float_constant_bounds,
    char_constant_bounds,
    string_constant_bounds,
    bool_constant_bounds,
}

/// The lexer. Its methods look at the text under a cursor and never move
/// anything: they answer with the cursor behind the lexeme.
pub struct Token;

impl Token {
    /// Find the end of the run of characters of `class` that starts at `pos`.
    pub fn run(src: &Source, pos: usize, class: CharClass) -> (end: usize)
        ensures
            end == run_end(src@, pos as int, class),
    {
        reveal(run_end);
        let n: usize = src.len();
        let mut end: usize = pos;
        while end < n && class.contains(src.peek(end).unwrap())
            invariant
                n == src@.len(),
                pos <= end,
                run_end(src@, pos as int, class) == run_end(src@, end as int, class),
            decreases n - end,
        {
            proof {
                reveal(run_end);
            }
            end += 1;
        }
        proof {
            reveal(run_end);
        }
        end
    }

    /// Recognise the character `c`.
    pub fn symbol(src: &Source, pos: usize, c: char) -> (end: Option<usize>)
        ensures
            symbol(src@, pos as int, c) == match end {
                Some(e) => Some(e as int),
                None => None,
            },
    {
        if src.holds(pos, c) {
            Some(pos + 1)
        } else {
            None
        }
    }

    /// Recognise the characters of `word`, whatever follows them.
    pub fn tag(src: &Source, pos: usize, word: &str) -> (end: Option<usize>)
        ensures
            tag(src@, pos as int, word@) == match end {
                Some(e) => Some(e as int),
                None => None,
            },
    {
        let n: usize = src.len();
        let k: usize = word.unicode_len();
        if pos > n || k > n - pos {
            return None;
        }
        let mut i: usize = 0;
        while i < k
            invariant
                n == src@.len(),
                k == word@.len(),
                pos + k <= n,
                i <= k,
                src@.subrange(pos as int, pos + i) == word@.subrange(0, i as int),
            decreases k - i,
        {
            if !src.holds(pos + i, word.get_char(i)) {
                assert(src@.subrange(pos as int, pos + k)[i as int] != word@[i as int]);
                return None;
            }
            assert(src@.subrange(pos as int, pos + i + 1) =~= src@.subrange(pos as int, pos + i).push(
                src@[pos + i],
            ));
            assert(word@.subrange(0, i + 1) =~= word@.subrange(0, i as int).push(word@[i as int]));
            i += 1;
        }
        assert(word@.subrange(0, k as int) =~= word@);
        Some(pos + k)
    }

    /// Recognise the reserved word `k`, standing as a word of its own.
    pub fn keyword(src: &Source, pos: usize, k: Keyword) -> (end: Option<usize>)
        ensures
            keyword(src@, pos as int, k) == match end {
                Some(e) => Some(e as int),
                None => None,
            },
    {
        reveal(keyword);
        match Token::tag(src, pos, k.word()) {
            Some(end) => match src.peek(end) {
                Some(c) => if CharClass::Word.contains(c) {
                    None
                } else {
                    Some(end)
                },
                None => Some(end),
            },
            None => None,
        }
    }

    /// Tell whether the characters from `pos` up to `end` spell a reserved
    /// word.
    pub fn reserved(src: &Source, pos: usize, end: usize) -> (r: bool)
        requires
            pos <= end <= src@.len(),
        ensures
            r == is_reserved(src@.subrange(pos as int, end as int)),
    {
        let ghost word = src@.subrange(pos as int, end as int);
        let all: [Keyword; 18] = [
            Keyword::Func,
            Keyword::Ext,
            Keyword::Test,
            Keyword::Mock,
            Keyword::Type,
            Keyword::If,
            Keyword::Else,
            Keyword::Audit,
            Keyword::Loop,
            Keyword::While,
            Keyword::For,
            Keyword::In,
            Keyword::Incl,
            Keyword::As,
            Keyword::Return,
            Keyword::Mut,
            Keyword::True,
            Keyword::False,
        ];
        let mut i: usize = 0;
        while i < 18
            invariant
                i <= 18,
                pos <= end <= src@.len(),
                word == src@.subrange(pos as int, end as int),
                all@.len() == 18,
                forall|j: int| 0 <= j < i ==> (#[trigger] all@[j]).text() != word,
            decreases 18 - i,
        {
            let k: Keyword = all[i];
            match Token::tag(src, pos, k.word()) {
                Some(e) => {
                    if e == end {
                        assert(k.text() == word);
                        return true;
                    }
                    assert(k.text().len() != word.len());
                },
                None => {
                    assert(k.text() == word ==> src@.subrange(pos as int, pos + k.text().len())
                        =~= word);
                },
            }
            i += 1;
        }
        assert forall|k: Keyword| #[trigger] k.text() != word by {
            assert(exists|j: int| 0 <= j < 18 && all@[j] == k) by {
                match k {
                    Keyword::Func => assert(all@[0] == k),
                    Keyword::Ext => assert(all@[1] == k),
                    Keyword::Test => assert(all@[2] == k),
                    Keyword::Mock => assert(all@[3] == k),
                    Keyword::Type => assert(all@[4] == k),
                    Keyword::If => assert(all@[5] == k),
                    Keyword::Else => assert(all@[6] == k),
                    Keyword::Audit => assert(all@[7] == k),
                    Keyword::Loop => assert(all@[8] == k),
                    Keyword::While => assert(all@[9] == k),
                    Keyword::For => assert(all@[10] == k),
                    Keyword::In => assert(all@[11] == k),
                    Keyword::Incl => assert(all@[12] == k),
                    Keyword::As => assert(all@[13] == k),
                    Keyword::Return => assert(all@[14] == k),
                    Keyword::Mut => assert(all@[15] == k),
                    Keyword::True => assert(all@[16] == k),
                    Keyword::False => assert(all@[17] == k),
                }
            }
        }
        false
    }

    /// Tell whether a letter stands between `pos` and `end`.
    pub fn letter_between(src: &Source, pos: usize, end: usize) -> (r: bool)
        requires
            pos <= end <= src@.len(),
        ensures
            r == has_letter(src@.subrange(pos as int, end as int)),
    {
        let ghost word = src@.subrange(pos as int, end as int);
        let mut i: usize = pos;
        while i < end
            invariant
                pos <= i <= end <= src@.len(),
                word == src@.subrange(pos as int, end as int),
                forall|j: int| 0 <= j < i - pos ==> !is_letter(#[trigger] word[j]),
            decreases end - i,
        {
            let c: char = src.peek(i).unwrap();
            if CharClass::Letter.contains(c) {
                assert(word[i - pos] == src@[i as int]);

                return true;
            }
            i += 1;
        }
        false
    }

    /// Recognise a name.
    pub fn identifier(src: &Source, pos: usize) -> (r: Option<(usize, String)>)
        ensures
            match r {
                Some((end, name)) => identifier(src@, pos as int) == Some((end as int, name@)),
                None => identifier(src@, pos as int) is None,
            },
    {
        reveal(identifier);
        broadcast use run_bounds;

        let n: usize = src.len();
        if pos >= n {
            return None;
        }
        let end: usize = Token::run(src, pos, CharClass::Word);
        if end > pos && Token::letter_between(src, pos, end) && !Token::reserved(src, pos, end) {
            Some((end, src.slice(pos, end)))
        } else {
            None
        }
    }

    /// Recognise an operator of the table.
    pub fn operator(src: &Source, pos: usize) -> (r: Option<(usize, Operator)>)
        ensures
            match r {
                Some((end, op)) => operator_at(src@, pos as int) == Some((end as int, op)),
                None => operator_at(src@, pos as int) is None,
            },
    {
        reveal(operator_at);
        if Token::tag(src, pos, Operator::Or.symbol()).is_some() {
            Some((pos + 2, Operator::Or))
        } else if Token::tag(src, pos, Operator::And.symbol()).is_some() {
            Some((pos + 2, Operator::And))
        } else if Token::tag(src, pos, Operator::Equal.symbol()).is_some() {
            Some((pos + 2, Operator::Equal))
        } else if Token::tag(src, pos, Operator::NotEqual.symbol()).is_some() {
            Some((pos + 2, Operator::NotEqual))
        } else if Token::tag(src, pos, Operator::LessEqual.symbol()).is_some() {
            Some((pos + 2, Operator::LessEqual))
        } else if Token::tag(src, pos, Operator::GreaterEqual.symbol()).is_some() {
            Some((pos + 2, Operator::GreaterEqual))
        } else if Token::tag(src, pos, Operator::ShiftLeft.symbol()).is_some() {
            Some((pos + 2, Operator::ShiftLeft))
        } else if Token::tag(src, pos, Operator::ShiftRight.symbol()).is_some() {
            Some((pos + 2, Operator::ShiftRight))
        } else if src.holds(pos, '|') {
            Some((pos + 1, Operator::BitOr))
        } else if src.holds(pos, '^') {
            Some((pos + 1, Operator::BitXor))
        } else if src.holds(pos, '&') {
            Some((pos + 1, Operator::BitAnd))
        } else if src.holds(pos, '<') {
            Some((pos + 1, Operator::Less))
        } else if src.holds(pos, '>') {
            Some((pos + 1, Operator::Greater))
        } else if src.holds(pos, '+') {
            Some((pos + 1, Operator::Add))
        } else if src.holds(pos, '-') {
            Some((pos + 1, Operator::Sub))
        } else if src.holds(pos, '*') {
            Some((pos + 1, Operator::Mul))
        } else if src.holds(pos, '/') {
            Some((pos + 1, Operator::Div))
        } else if src.holds(pos, '%') {
            Some((pos + 1, Operator::Rem))
        } else {
            None
        }
    }

    /// Tell whether the character at `pos` starts or continues an operator.
    pub fn operator_char(src: &Source, pos: usize) -> (r: bool)
        ensures
            r == (pos < src@.len() && is_operator_char(src@[pos as int])),
    {
        match src.peek(pos) {
            Some(c) => c == '+' || c == '-' || c == '*' || c == '/' || c == '%' || c == '<' || c
                == '>' || c == '=' || c == '!' || c == '&' || c == '|' || c == '^' || c == '~' || c
                == '?',
            None => false,
        }
    }

    /// Find the end of the comment that starts at `pos`; the answer is
    /// `pos` if none starts there.
    pub fn comment(src: &Source, pos: usize) -> (end: usize)
        ensures
            end == comment_end(src@, pos as int),
    {
        proof {
            reveal_strlit("//");
            reveal_strlit("/*");
            assert("//"@ =~= seq!['/', '/']);
            assert("/*"@ =~= seq!['/', '*']);
        }
        if Token::tag(src, pos, "//").is_some() {
            Token::run(src, pos + 2, CharClass::Line)
        } else if src.holds(pos, '#') {
            Token::run(src, pos + 1, CharClass::Line)
        } else if Token::tag(src, pos, "/*").is_some() {
            let n: usize = src.len();
            let mut i: usize = pos + 2;
            while n - i >= 2
                invariant
                    n == src@.len(),
                    pos + 2 <= i <= n,
                    tag(src@, pos as int, seq!['/', '/']) is None,
                    symbol(src@, pos as int, '#') is None,
                    tag(src@, pos as int, seq!['/', '*']) is Some,
                    comment_close(src@, pos + 2) == comment_close(src@, i as int),
                decreases n - i,
            {
                if src.holds(i, '*') && src.holds(i + 1, '/') {
                    return i + 2;
                }
                i += 1;
            }
            pos
        } else {
            pos
        }
    }

    /// Skip the whitespace and the comments that start at `pos`.
    pub fn maybe_consume_extra(src: &Source, pos: usize) -> (end: usize)
        ensures
            end == skip_extra(src@, pos as int),
            pos <= end,
            pos <= src@.len() ==> end <= src@.len(),
    {
        reveal(skip_extra);
        broadcast use skip_extra_bounds;

        let n: usize = src.len();
        let mut end: usize = pos;
        while end < n
            invariant
                n == src@.len(),
                pos <= end,
                skip_extra(src@, pos as int) == skip_extra(src@, end as int),
            decreases n - end,
        {
            proof {
                reveal(skip_extra);
            }
            if CharClass::Whitespace.contains(src.peek(end).unwrap()) {
                end += 1;
            } else {
                let after: usize = Token::comment(src, end);
                if end < after && after <= n {
                    end = after;
                } else {
                    return end;
                }
            }
        }
        end
    }

    /// Skip the whitespace that starts at `pos`, and no comment.
    pub fn maybe_consume_whitespaces(src: &Source, pos: usize) -> (end: usize)
        ensures
            end == run_end(src@, pos as int, CharClass::Whitespace),
            pos <= end,
            pos <= src@.len() ==> end <= src@.len(),
    {
        broadcast use run_bounds;

        Token::run(src, pos, CharClass::Whitespace)
    }

    /// Recognise an integer literal and compute its value.
    pub fn int_constant(src: &Source, pos: usize) -> (r: Result<(usize, i64), ErrorKind>)
        ensures
            match r {
                Ok((end, value)) => int_constant(src@, pos as int) == Ok::<_, ErrorKind>(
                    (end as int, value),
                ),
                Err(e) => int_constant(src@, pos as int) == Err::<(int, i64), _>(e),
            },
    {
        reveal(int_constant);
        broadcast use run_bounds;

        let n: usize = src.len();
        let negative: bool = src.holds(pos, '-');
        let start: usize = if negative {
            pos + 1
        } else {
            pos
        };
        let end: usize = Token::run(src, start, CharClass::Digit);
        if end <= start || end > n {
            return Err(ErrorKind::ExpectedTokenMissing);
        }
        proof {
            run_is_longest(src@, start as int, CharClass::Digit);
        }
        let limit: u64 = 9223372036854775808;
        let mut magnitude: u64 = 0;
        let mut over: bool = false;
        let mut i: usize = start;
        while i < end
            invariant
                start <= i <= end <= src@.len(),
                limit == 9223372036854775808,
                forall|j: int| start <= j < end ==> is_decimal_digit(#[trigger] src@[j]),
                0 <= decimal(src@.subrange(start as int, i as int)),
                !over ==> magnitude == decimal(src@.subrange(start as int, i as int)) && magnitude
                    <= limit,
                over ==> decimal(src@.subrange(start as int, i as int)) > limit,
            decreases end - i,
        {
            let c: char = src.peek(i).unwrap();
            assert(is_decimal_digit(src@[i as int]));
            let d: u64 = (#[verifier::truncate] (c as u8) - 48) as u64;
            proof {
                let before = src@.subrange(start as int, i as int);
                let after = src@.subrange(start as int, i + 1);
                assert(after.drop_last() =~= before);
                assert(after.last() == c);
                assert(decimal(after) == decimal(before) * 10 + digit_value(c));
                assert(digit_value(c) == d);
            }
            if !over {
                if magnitude > (limit - d) / 10 {
                    over = true;
                } else {
                    magnitude = magnitude * 10 + d;
                }
            }
            i += 1;
        }
        if over {
            return Err(ErrorKind::MalformedLiteral);
        }
        if negative {
            if magnitude == limit {
                Ok((end, i64::MIN))
            } else {
                Ok((end, -(magnitude as i64)))
            }
        } else if magnitude == limit {
            Err(ErrorKind::MalformedLiteral)
        } else {
            Ok((end, magnitude as i64))
        }
    }

    /// Recognise a floating point literal and keep it as written.
    pub fn float_constant(src: &Source, pos: usize) -> (r: Result<(usize, String), ErrorKind>)
        ensures
            match r {
                Ok((end, text)) => float_constant(src@, pos as int) == Ok::<_, ErrorKind>(
                    (end as int, text@),
                ),
                Err(e) => float_constant(src@, pos as int) == Err::<(int, Seq<char>), _>(e),
            },
    {
        reveal(float_constant);
        broadcast use run_bounds;

        let n: usize = src.len();
        let start: usize = if src.holds(pos, '-') {
            pos + 1
        } else {
            pos
        };
        let dot: usize = Token::run(src, start, CharClass::Digit);
        if dot <= start || !src.holds(dot, '.') {
            return Err(ErrorKind::ExpectedTokenMissing);
        }
        let end: usize = Token::run(src, dot + 1, CharClass::Digit);
        if end <= dot + 1 || end > n {
            return Err(ErrorKind::ExpectedTokenMissing);
        }
        Ok((end, src.slice(pos, end)))
    }

    /// Recognise a character literal.
    pub fn char_constant(src: &Source, pos: usize) -> (r: Result<(usize, char), ErrorKind>)
        ensures
            match r {
                Ok((end, c)) => char_constant(src@, pos as int) == Ok::<_, ErrorKind>(
                    (end as int, c),
                ),
                Err(e) => char_constant(src@, pos as int) == Err::<(int, char), _>(e),
            },
    {
        reveal(char_constant);
        if !src.holds(pos, '\'') {
            return Err(ErrorKind::ExpectedTokenMissing);
        }
        let n: usize = src.len();
        if n - pos > 2 && src.holds(pos + 2, '\'') {
            Ok((pos + 3, src.peek(pos + 1).unwrap()))
        } else {
            Err(ErrorKind::MalformedLiteral)
        }
    }

    /// Recognise a string literal and take what stands between its quotes.
    pub fn string_constant(src: &Source, pos: usize) -> (r: Result<(usize, String), ErrorKind>)
        ensures
            match r {
                Ok((end, text)) => string_constant(src@, pos as int) == Ok::<_, ErrorKind>(
                    (end as int, text@),
                ),
                Err(e) => string_constant(src@, pos as int) == Err::<(int, Seq<char>), _>(e),
            },
    {
        reveal(string_constant);
        broadcast use run_bounds;

        if !src.holds(pos, '"') {
            return Err(ErrorKind::ExpectedTokenMissing);
        }
        let end: usize = Token::run(src, pos + 1, CharClass::Quoted);
        if end < src.len() {
            Ok((end + 1, src.slice(pos + 1, end)))
        } else {
            Err(ErrorKind::MalformedLiteral)
        }
    }

    /// Recognise `true` or `false`.
    pub fn bool_constant(src: &Source, pos: usize) -> (r: Result<(usize, bool), ErrorKind>)
        ensures
            match r {
                Ok((end, b)) => bool_constant(src@, pos as int) == Ok::<_, ErrorKind>(
                    (end as int, b),
                ),
                Err(e) => bool_constant(src@, pos as int) == Err::<(int, bool), _>(e),
            },
    {
        reveal(bool_constant);
        match Token::keyword(src, pos, Keyword::True) {
            Some(end) => Ok((end, true)),
            None => match Token::keyword(src, pos, Keyword::False) {
                Some(end) => Ok((end, false)),
                None => Err(ErrorKind::ExpectedTokenMissing),
            },
        }
    }
}

} // verus!
