use vstd::prelude::*;
use vstd::string::StrSliceExecFns;

verus! {

/// Whether a character counts as whitespace for the scanner: the Unicode
/// `White_Space` property, as `char::is_whitespace` decides it.
pub uninterp spec fn is_whitespace_char(c: char) -> bool;

/// Whether a character counts as numeric for the scanner: the Unicode
/// number categories, as `char::is_numeric` decides it (not limited to
/// ASCII `0`-`9`).
pub uninterp spec fn is_numeric_char(c: char) -> bool;

/// Relies on `char::is_whitespace`: whether the character has the Unicode
/// `White_Space` property, a function of the character alone.
pub assume_specification[ char::is_whitespace ](c: char) -> (r: bool)
    ensures
        r == is_whitespace_char(c),
;

/// Relies on `char::is_numeric`: whether the character has one of the
/// Unicode general categories for numbers, a function of the character alone.
pub assume_specification[ char::is_numeric ](c: char) -> (r: bool)
    ensures
        r == is_numeric_char(c),
;

/// The classification of a token.
#[derive(Debug, PartialEq, Eq, Structural)]
pub enum TokenKind {
    Integer,
    Plus,
    Error,
    EndOfFile,
}

/// A classified unit of lexical input: a kind together with the exact text
/// that produced it (an owned copy, so the token outlives the scan position).
#[derive(Debug)]
pub struct Token {
    /// The kind of token
    pub kind: TokenKind,

    /// The text that produced this token
    pub lexeme: String,
}

impl Token {
    pub fn new(kind: TokenKind, lexeme: &str) -> (t: Token)
        ensures
            t.kind == kind,
            t.lexeme@ == lexeme@,
    {
        Token { kind, lexeme: lexeme.to_owned() }
    }
}

/// The next character at position `i`, if any: `next` and `peek` both
/// observe this character, and `next` alone consumes it.
pub open spec fn char_at(s: Seq<char>, i: int) -> Option<char> {
    if 0 <= i < s.len() {
        Some(s[i])
    } else {
        None
    }
}

/// The first position at or after `i` whose character is not whitespace
/// (or the end of the source if only whitespace remains): where the next
/// token starts.
pub open spec fn skip_ws_from(s: Seq<char>, i: int) -> int
    decreases s.len() - i,
{
    if i < 0 || i >= s.len() {
        i
    } else if is_whitespace_char(s[i]) {
        skip_ws_from(s, i + 1)
    } else {
        i
    }
}

/// The first position at or after `i` whose character is not numeric (or
/// the end of the source): where a run of digits ends.
pub open spec fn digit_run_end(s: Seq<char>, i: int) -> int
    decreases s.len() - i,
{
    if i < 0 || i >= s.len() {
        i
    } else if is_numeric_char(s[i]) {
        digit_run_end(s, i + 1)
    } else {
        i
    }
}

/// The kind of the token that a scan starting at position `pos` produces.
pub open spec fn scan_kind(s: Seq<char>, pos: int) -> TokenKind {
    let j = skip_ws_from(s, pos);
    if j >= s.len() {
        TokenKind::EndOfFile
    } else if s[j] == '+' {
        TokenKind::Plus
    } else if is_numeric_char(s[j]) {
        TokenKind::Integer
    } else {
        TokenKind::Error
    }
}

/// The lexeme of the token that a scan starting at position `pos` produces:
/// empty at end of input, the maximal digit run for an integer literal, and
/// a fixed text for `Plus` and `Error` tokens.
pub open spec fn scan_lexeme(s: Seq<char>, pos: int) -> Seq<char> {
    let j = skip_ws_from(s, pos);
    if j >= s.len() {
        Seq::<char>::empty()
    } else if s[j] == '+' {
        seq!['+']
    } else if is_numeric_char(s[j]) {
        s.subrange(j, digit_run_end(s, j + 1))
    } else {
        seq!['e', 'r', 'r', 'o', 'r']
    }
}

/// The cursor position after a scan starting at position `pos`: just past
/// the consumed token, and past the whole source at end of input.
pub open spec fn scan_end(s: Seq<char>, pos: int) -> int {
    let j = skip_ws_from(s, pos);
    if j >= s.len() {
        j
    } else if s[j] == '+' {
        j + 1
    } else if is_numeric_char(s[j]) {
        digit_run_end(s, j + 1)
    } else {
        j + 1
    }
}

/// A scanner for the language
pub struct Lexer<'a> {
    /// The input source
    source: &'a str,

    /// The position of the next character not yet consumed, counted in
    /// characters from the start of the source
    pos: usize,
}

impl<'a> Lexer<'a> {
    /// The source text under scan, as a sequence of characters.
    pub closed spec fn src(self) -> Seq<char> {
        self.source@
    }

    /// The cursor: how many characters have been consumed so far, which is
    /// also the position of the lookahead character.
    pub closed spec fn cursor(self) -> int {
        self.pos as int
    }

    /// The cursor never leaves the source: it sits on a character of the
    /// source or just past its last character.
    pub open spec fn wf(self) -> bool {
        0 <= self.cursor() <= self.src().len()
    }

    pub fn new(source: &'a str) -> (lx: Lexer<'a>)
        ensures
            lx.wf(),
            lx.src() == source@,
            lx.cursor() == 0,
    {
        Lexer { source, pos: 0 }
    }

    /// The lookahead: the next character, observed without consuming it.
    fn peek(&self) -> (c: Option<char>)
        requires
            self.wf(),
        ensures
            c == char_at(self.src(), self.cursor()),
            c is Some ==> self.cursor() < usize::MAX,
    {
        if self.pos < self.source.unicode_len() {
            Some(self.source.get_char(self.pos))
        } else {
            None
        }
    }

    /// Consume and return the next character, if one remains.
    fn next(&mut self) -> (c: Option<char>)
        requires
            old(self).wf(),
        ensures
            final(self).wf(),
            final(self).src() == old(self).src(),
            c == char_at(old(self).src(), old(self).cursor()),
            final(self).cursor() == if c is Some {
                old(self).cursor() + 1
            } else {
                old(self).cursor()
            },
    {
        let c = self.peek();
        if c.is_some() {
            self.pos = self.pos + 1;
        }
        c
    }

    /// Advance the cursor past any run of whitespace characters, so that it
    /// rests on the first character of the next token (or at end of input).
    #[verifier::loop_isolation(false)]
    fn skip_whitespace(&mut self)
        requires
            old(self).wf(),
        ensures
            final(self).wf(),
            final(self).src() == old(self).src(),
            final(self).cursor() == skip_ws_from(old(self).src(), old(self).cursor()),
    {
        loop
            invariant
                self.wf(),
                self.src() == old(self).src(),
                skip_ws_from(self.src(), self.cursor()) == skip_ws_from(
                    old(self).src(),
                    old(self).cursor(),
                ),
            decreases self.src().len() - self.cursor(),
        {
            match self.peek() {
                Some(c) => {
                    if c.is_whitespace() {
                        self.next();
                    } else {
                        return;
                    }
                },
                None => {
                    return;
                },
            }
        }
    }

    /// Scan one token and advance the cursor past it. Leading whitespace is
    /// skipped first; then the token is classified by its first character:
    /// none left gives `EndOfFile`, `+` gives `Plus`, a numeric character
    /// opens an integer literal, and anything else gives `Error` with the
    /// fixed lexeme `"error"` (the offending character is consumed and
    /// discarded).
    pub fn scan_token(&mut self) -> (t: Token)
        requires
            old(self).wf(),
        ensures
            final(self).wf(),
            final(self).src() == old(self).src(),
            t.kind == scan_kind(old(self).src(), old(self).cursor()),
            t.lexeme@ == scan_lexeme(old(self).src(), old(self).cursor()),
            final(self).cursor() == scan_end(old(self).src(), old(self).cursor()),
    {
        self.skip_whitespace();

        match self.next() {
            None => {
                proof {
                    reveal_strlit("");
                    assert(""@ =~= Seq::<char>::empty());
                }
                Token::new(TokenKind::EndOfFile, "")
            },
            Some(c) => match c {
                '+' => {
                    proof {
                        reveal_strlit("+");
                        assert("+"@ =~= seq!['+']);
                    }
                    Token::new(TokenKind::Plus, "+")
                },
                x => {
                    if x.is_numeric() {
                        self.scan_number()
                    } else {
                        proof {
                            reveal_strlit("error");
                            assert("error"@ =~= seq!['e', 'r', 'r', 'o', 'r']);
                        }
                        Token::new(TokenKind::Error, "error")
                    }
                },
            },
        }
    }

    /// Scan the remainder of an integer literal whose first digit has just
    /// been consumed: consume characters while they are numeric, and return
    /// an `Integer` token whose lexeme is the whole contiguous digit run,
    /// first digit included.
    #[verifier::loop_isolation(false)]
    fn scan_number(&mut self) -> (t: Token)
        requires
            old(self).wf(),
            old(self).cursor() >= 1,
        ensures
            final(self).wf(),
            final(self).src() == old(self).src(),
            t.kind == TokenKind::Integer,
            final(self).cursor() == digit_run_end(old(self).src(), old(self).cursor()),
            t.lexeme@ == old(self).src().subrange(old(self).cursor() - 1, final(self).cursor()),
    {
        let start = self.pos - 1;

        loop
            invariant
                self.wf(),
                self.src() == old(self).src(),
                self.cursor() >= old(self).cursor(),
                digit_run_end(self.src(), self.cursor()) == digit_run_end(
                    old(self).src(),
                    old(self).cursor(),
                ),
            decreases self.src().len() - self.cursor(),
        {
            match self.peek() {
                Some(x) => {
                    if x.is_numeric() {
                        self.next();
                    } else {
                        break;
                    }
                },
                None => {
                    break;
                },
            }
        }

        let kind = TokenKind::Integer;
        let lexeme = self.source.substring_char(start, self.pos);
        Token::new(kind, lexeme)
    }
}

} // verus!
