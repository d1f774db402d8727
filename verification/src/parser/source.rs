//! The text that is parsed, addressed by character.

use vstd::prelude::*;
use vstd::std_specs::iter::IteratorSpec;

verus! {

/// `String::push` appends the character to the end of the string.
pub assume_specification[ String::push ](s: &mut String, ch: char)
    ensures
        final(s)@ == old(s)@.push(ch),
;

/// A source text together with its characters, so that the character under
/// a cursor is found in one step. A cursor is a number of characters from
/// the start of the text.
pub struct Source<'i> {
    text: &'i str,
    chars: Vec<char>,
}

/// The characters of the text.
impl<'i> View for Source<'i> {
    type V = Seq<char>;

    closed spec fn view(&self) -> Seq<char> {
        self.text@
    }
}

impl<'i> Source<'i> {
    #[verifier::type_invariant]
    spec fn consistent(&self) -> bool {
        self.chars@ == self.text@
    }

    /// Prepare `text` for parsing.
    pub fn new(text: &'i str) -> (s: Source<'i>)
        ensures
            s@ == text@,
    {
        broadcast use vstd::string::group_string_axioms;

        let mut chars: Vec<char> = Vec::new();
        let mut rest = text.chars();
        assert(chars@ + rest.remaining() =~= text@);
        loop
            invariant
                chars@ + rest.remaining() == text@,
            ensures
                chars@ == text@,
            decreases text@.len() - chars@.len(),
        {
            let ghost before = rest.remaining();
            match rest.next() {
                Some(c) => {
                    chars.push(c);
                    assert(chars@ + rest.remaining() =~= text@);
                },
                None => {
                    assert(chars@ + before =~= chars@);
                    break ;
                },
            }
        }
        Source { text, chars }
    }

    /// The number of characters of the text.
    pub fn len(&self) -> (n: usize)
        ensures
            n == self@.len(),
    {
        proof {
            use_type_invariant(self);
        }
        self.chars.len()
    }

    /// The character at `pos`, or nothing at the end of the text.
    pub fn peek(&self, pos: usize) -> (c: Option<char>)
        ensures
            c == (if pos < self@.len() {
                Some(self@[pos as int])
            } else {
                None
            }),
            self@.len() <= usize::MAX,
    {
        proof {
            use_type_invariant(self);
        }
        if pos < self.chars.len() {
            Some(self.chars[pos])
        } else {
            None
        }
    }

    /// Whether the character at `pos` is `c`.
    pub fn holds(&self, pos: usize, c: char) -> (r: bool)
        ensures
            r == (pos < self@.len() && self@[pos as int] == c),
            self@.len() <= usize::MAX,
    {
        match self.peek(pos) {
            Some(d) => d == c,
            None => false,
        }
    }

    /// The characters from `from` up to, and without, `to`.
    pub fn slice(&self, from: usize, to: usize) -> (s: String)
        requires
            from <= to <= self@.len(),
        ensures
            s@ == self@.subrange(from as int, to as int),
    {
        proof {
            use_type_invariant(self);
        }
        let mut s = String::new();
        let mut i: usize = from;
        assert(s@ =~= self@.subrange(from as int, from as int));
        while i < to
            invariant
                from <= i <= to <= self.chars@.len(),
                self.chars@ == self@,
                s@ == self@.subrange(from as int, i as int),
            decreases to - i,
        {
            s.push(self.chars[i]);
            assert(s@ =~= self@.subrange(from as int, i + 1));
            i += 1;
        }
        s
    }

    /// The text from `from` on.
    pub fn rest(&self, from: usize) -> (s: &'i str)
        requires
            from <= self@.len(),
        ensures
            s@ == self@.skip(from as int),
    {
        let n: usize = self.len();
        self.text.substring_char(from, n)
    }

    /// The whole text.
    pub fn text(&self) -> (s: &'i str)
        ensures
            s@ == self@,
    {
        self.text
    }
}

} // verus!
