//! Lexical scanner: turns source text into a sequence of tokens.

use vstd::prelude::*;
use vstd::string::{StrSliceExecFns, StringExecFns};
use crate::interner::{spec_insert, Interner, Symbol};
use crate::span::Span;
use crate::token::{Kind, Token};

verus! {

/// Whether a character counts as whitespace.
pub uninterp spec fn is_whitespace_char(c: char) -> bool;

/// Whether a character counts as numeric.
pub uninterp spec fn is_numeric_char(c: char) -> bool;

/// Whether a character counts as alphanumeric.
pub uninterp spec fn is_alphanumeric_char(c: char) -> bool;

/// Relies on char::is_whitespace: whether `c` has the Unicode whitespace
/// property. The result depends on the character alone.
#[verifier::external_body]
fn whitespace_char(c: char) -> (r: bool)
    ensures
        r == is_whitespace_char(c),
{
    c.is_whitespace()
}

/// Relies on char::is_numeric: whether `c` is in a Unicode numeric category.
/// The result depends on the character alone.
#[verifier::external_body]
fn numeric_char(c: char) -> (r: bool)
    ensures
        r == is_numeric_char(c),
{
    c.is_numeric()
}

/// Relies on char::is_alphanumeric: whether `c` is in a Unicode alphabetic or
/// numeric category. The result depends on the character alone.
#[verifier::external_body]
fn alphanumeric_char(c: char) -> (r: bool)
    ensures
        r == is_alphanumeric_char(c),
{
    c.is_alphanumeric()
}

/// Whether a character may continue an identifier.
pub open spec fn spec_is_ident(c: char) -> bool {
    is_alphanumeric_char(c) || c == '_'
}

pub fn is_ident(c: char) -> (r: bool)
    ensures
        r == spec_is_ident(c),
{
    alphanumeric_char(c) || c == '_'
}

/// The position right after the whitespace run that starts at `i`.
pub open spec fn ws_run_end(src: Seq<char>, i: int) -> int
    decreases src.len() - i,
{
    if 0 <= i < src.len() && is_whitespace_char(src[i]) {
        ws_run_end(src, i + 1)
    } else {
        i
    }
}

/// The position right after the numeric-character run that starts at `i`.
pub open spec fn num_run_end(src: Seq<char>, i: int) -> int
    decreases src.len() - i,
{
    if 0 <= i < src.len() && is_numeric_char(src[i]) {
        num_run_end(src, i + 1)
    } else {
        i
    }
}

/// The position right after the identifier-character run that starts at `i`.
pub open spec fn ident_run_end(src: Seq<char>, i: int) -> int
    decreases src.len() - i,
{
    if 0 <= i < src.len() && spec_is_ident(src[i]) {
        ident_run_end(src, i + 1)
    } else {
        i
    }
}

/// The position of the first occurrence of `q` at or after `i`, or the end of
/// the text if `q` does not occur.
pub open spec fn delim_run_end(src: Seq<char>, i: int, q: char) -> int
    decreases src.len() - i,
{
    if 0 <= i < src.len() && src[i] != q {
        delim_run_end(src, i + 1, q)
    } else {
        i
    }
}

pub proof fn lemma_ws_run_end(src: Seq<char>, i: int)
    requires
        0 <= i <= src.len(),
    ensures
        i <= ws_run_end(src, i) <= src.len(),
    decreases src.len() - i,
{
    if i < src.len() && is_whitespace_char(src[i]) {
        lemma_ws_run_end(src, i + 1);
    }
}

pub proof fn lemma_num_run_end(src: Seq<char>, i: int)
    requires
        0 <= i <= src.len(),
    ensures
        i <= num_run_end(src, i) <= src.len(),
    decreases src.len() - i,
{
    if i < src.len() && is_numeric_char(src[i]) {
        lemma_num_run_end(src, i + 1);
    }
}

pub proof fn lemma_ident_run_end(src: Seq<char>, i: int)
    requires
        0 <= i <= src.len(),
    ensures
        i <= ident_run_end(src, i) <= src.len(),
    decreases src.len() - i,
{
    if i < src.len() && spec_is_ident(src[i]) {
        lemma_ident_run_end(src, i + 1);
    }
}

pub proof fn lemma_delim_run_end(src: Seq<char>, i: int, q: char)
    requires
        0 <= i <= src.len(),
    ensures
        i <= delim_run_end(src, i, q) <= src.len(),
    decreases src.len() - i,
{
    if i < src.len() && src[i] != q {
        lemma_delim_run_end(src, i + 1, q);
    }
}

/// A scanning failure, reported per call so that a caller may abort or
/// resynchronize as it sees fit.
#[derive(Clone, Copy, Debug, PartialEq, Eq, Structural)]
pub enum ScanError {
    /// A character literal whose body is longer than one character and is not
    /// a two-character escape starting with a backslash.
    NotCharLiteral,
    /// A character literal whose closing quote never came.
    UnterminatedCharLiteral,
    /// A string literal whose closing quote never came.
    UnterminatedStrLiteral,
}

/// What one token looks like at the specification level: its category, the
/// positions it covers, and its text when its category calls for a lexeme.
pub ghost struct SpecTok {
    pub kind: Kind,
    pub start: int,
    pub end: int,
    pub lexeme: Option<Seq<char>>,
}

/// The outcome of one scan step: the input was exhausted, a token was found,
/// or the text is lexically malformed.
pub ghost enum SpecScan {
    End,
    Tok(SpecTok),
    Fail(ScanError),
}

/// How an executable token realizes a specification-level one: same category,
/// and a span covering the same positions.
pub open spec fn tok_shape(t: Token, st: SpecTok) -> bool {
    &&& t.kind == st.kind
    &&& t.span == (Span { start: st.start as usize, len: (st.end - st.start) as usize })
}

/// How a scan step affects the interner, and what lexeme the produced token
/// carries: a token without a lexeme leaves the table alone; one with a
/// lexeme interns its text and carries the symbol the insertion yielded.
pub open spec fn interned_lexeme(
    itab0: Seq<Seq<char>>,
    itab1: Seq<Seq<char>>,
    t: Token,
    st: SpecTok,
) -> bool {
    match st.lexeme {
        None => t.lexeme is None && itab1 == itab0,
        Some(text) => {
            &&& t.lexeme matches Some(sym) && sym.0 as int == spec_insert(itab0, text).1
            &&& itab1 == spec_insert(itab0, text).0
        },
    }
}

/// The numeric literal that starts at `i`: the maximal digit run, extended
/// over a following `.` only when at least one digit follows the dot.
pub open spec fn spec_number(src: Seq<char>, i: int) -> SpecTok {
    let j1 = num_run_end(src, i + 1);
    if j1 < src.len() && src[j1] == '.' && num_run_end(src, j1 + 1) > j1 + 1 {
        let j2 = num_run_end(src, j1 + 1);
        SpecTok { kind: Kind::FloatLit, start: i, end: j2, lexeme: Some(src.subrange(i, j2)) }
    } else {
        SpecTok { kind: Kind::IntLit, start: i, end: j1, lexeme: Some(src.subrange(i, j1)) }
    }
}

/// The identifier or keyword token that starts at `i`: the maximal run of
/// identifier characters, classified against the keyword table.
pub open spec fn spec_ident_tok(src: Seq<char>, i: int) -> SpecTok {
    let j = ident_run_end(src, i + 1);
    SpecTok {
        kind: Kind::spec_ident_or_kw(src.subrange(i, j)),
        start: i,
        end: j,
        lexeme: Some(src.subrange(i, j)),
    }
}

/// The string literal whose opening quote stands at `i`: its lexeme is
/// everything up to the closing quote, which is left unconsumed.
pub open spec fn spec_str_lit(src: Seq<char>, i: int) -> SpecScan {
    let j = delim_run_end(src, i + 1, '"');
    if j >= src.len() {
        SpecScan::Fail(ScanError::UnterminatedStrLiteral)
    } else {
        SpecScan::Tok(
            SpecTok { kind: Kind::StrLit, start: i, end: j, lexeme: Some(src.subrange(i + 1, j)) },
        )
    }
}

/// The character literal whose opening quote stands at `i`: its body must be
/// one character or a two-character backslash escape, and the closing quote
/// is left unconsumed.
pub open spec fn spec_char_lit(src: Seq<char>, i: int) -> SpecScan {
    let j = delim_run_end(src, i + 1, '\'');
    let content = src.subrange(i + 1, j);
    if content.len() >= 2 && !(content.len() == 2 && content[0] == '\\') {
        SpecScan::Fail(ScanError::NotCharLiteral)
    } else if j >= src.len() {
        SpecScan::Fail(ScanError::UnterminatedCharLiteral)
    } else {
        SpecScan::Tok(SpecTok { kind: Kind::CharLit, start: i, end: j, lexeme: Some(content) })
    }
}

/// A one-character token of category `k` at position `i`.
pub open spec fn spec_one(k: Kind, i: int) -> SpecScan {
    SpecScan::Tok(SpecTok { kind: k, start: i, end: i + 1, lexeme: None })
}

/// Disambiguation of an operator at `i` by one character of lookahead: the
/// two-character category when `follow` comes next, the one-character
/// category otherwise.
pub open spec fn spec_two_or_one(src: Seq<char>, i: int, follow: char, two: Kind, one: Kind) -> SpecScan {
    if i + 1 < src.len() && src[i + 1] == follow {
        SpecScan::Tok(SpecTok { kind: two, start: i, end: i + 2, lexeme: None })
    } else {
        spec_one(one, i)
    }
}

/// One step of scanning from position `pos`: skip whitespace, then classify
/// the token that starts at the first remaining character.
pub open spec fn spec_scan(src: Seq<char>, pos: int) -> SpecScan {
    let i = ws_run_end(src, pos);
    if !(0 <= i < src.len()) {
        SpecScan::End
    } else {
        let c = src[i];
        if c == '[' {
            spec_one(Kind::LBrack, i)
        } else if c == ']' {
            spec_one(Kind::RBrack, i)
        } else if c == '(' {
            spec_one(Kind::LParen, i)
        } else if c == ')' {
            spec_one(Kind::RParen, i)
        } else if c == '.' {
            spec_one(Kind::Dot, i)
        } else if c == ',' {
            spec_one(Kind::Comma, i)
        } else if c == ';' {
            spec_one(Kind::Semi, i)
        } else if c == '|' {
            spec_one(Kind::Vert, i)
        } else if c == '~' {
            spec_one(Kind::Tilde, i)
        } else if c == '*' {
            spec_one(Kind::Star, i)
        } else if c == '&' {
            spec_one(Kind::Amp, i)
        } else if c == '+' {
            spec_one(Kind::Plus, i)
        } else if c == '#' {
            spec_one(Kind::Hash, i)
        } else if c == ':' {
            spec_two_or_one(src, i, '=', Kind::ColonEq, Kind::Colon)
        } else if c == '-' {
            spec_two_or_one(src, i, '>', Kind::RArrow, Kind::Minus)
        } else if c == '=' {
            spec_two_or_one(src, i, '>', Kind::RFatArrow, Kind::Eq)
        } else if c == '<' {
            if i + 1 < src.len() && src[i + 1] == '-' {
                SpecScan::Tok(SpecTok { kind: Kind::LArrow, start: i, end: i + 2, lexeme: None })
            } else if i + 1 < src.len() && src[i + 1] == '=' {
                SpecScan::Tok(SpecTok { kind: Kind::LtEq, start: i, end: i + 2, lexeme: None })
            } else {
                spec_one(Kind::Lt, i)
            }
        } else if c == '>' {
            spec_two_or_one(src, i, '=', Kind::GtEq, Kind::Gt)
        } else if c == '/' {
            spec_two_or_one(src, i, '=', Kind::Neq, Kind::Slash)
        } else if c == '_' {
            if i + 1 < src.len() && spec_is_ident(src[i + 1]) {
                SpecScan::Tok(spec_ident_tok(src, i))
            } else {
                spec_one(Kind::Underscore, i)
            }
        } else if c == '"' {
            spec_str_lit(src, i)
        } else if c == '\'' {
            spec_char_lit(src, i)
        } else if is_numeric_char(c) {
            SpecScan::Tok(spec_number(src, i))
        } else {
            SpecScan::Tok(spec_ident_tok(src, i))
        }
    }
}

/// A scanned token sits between the scan position and the end of the text,
/// and covers at least one character.
pub proof fn lemma_spec_scan_bounds(src: Seq<char>, pos: int)
    requires
        0 <= pos <= src.len(),
    ensures
        spec_scan(src, pos) matches SpecScan::Tok(st) ==> pos <= st.start < st.end <= src.len(),
{
    lemma_ws_run_end(src, pos);
    let i = ws_run_end(src, pos);
    if 0 <= i < src.len() {
        lemma_ident_run_end(src, i + 1);
        lemma_num_run_end(src, i + 1);
        let j1 = num_run_end(src, i + 1);
        if j1 < src.len() {
            lemma_num_run_end(src, j1 + 1);
        }
        lemma_delim_run_end(src, i + 1, '"');
        lemma_delim_run_end(src, i + 1, '\'');
    }
}

/// The whole token sequence from position `pos` on, or the first scanning
/// failure.
pub open spec fn spec_tokens(src: Seq<char>, pos: int) -> Result<Seq<SpecTok>, ScanError>
    decreases src.len() - pos,
{
    match spec_scan(src, pos) {
        SpecScan::End => Ok(Seq::empty()),
        SpecScan::Fail(e) => Err(e),
        SpecScan::Tok(st) => {
            if pos < st.end <= src.len() {
                match spec_tokens(src, st.end) {
                    Ok(rest) => Ok(seq![st] + rest),
                    Err(e) => Err(e),
                }
            } else {
                // never reached: a scanned token ends past the scan position
                // (lemma_spec_scan_bounds); the test only makes the recursion
                // well founded
                Ok(seq![st])
            }
        },
    }
}

/// `r` with `prefix` prepended to its token sequence when it has one.
pub open spec fn spec_tokens_concat(
    prefix: Seq<SpecTok>,
    r: Result<Seq<SpecTok>, ScanError>,
) -> Result<Seq<SpecTok>, ScanError> {
    match r {
        Ok(rest) => Ok(prefix + rest),
        Err(e) => Err(e),
    }
}

/// How an executable token realizes a specification-level one once scanning
/// is over: same category and span, and a lexeme that `table` resolves to the
/// token's text.
pub open spec fn tok_matches(t: Token, st: SpecTok, table: Seq<Seq<char>>) -> bool {
    &&& tok_shape(t, st)
    &&& t.wf()
    &&& match st.lexeme {
        None => t.lexeme is None,
        Some(text) => t.lexeme matches Some(sym) && sym.0 < table.len() && table[sym.0 as int]
            == text,
    }
}

/// A token that matches against a table keeps matching when the table grows
/// at its end.
proof fn lemma_tok_matches_grow(t: Token, st: SpecTok, itab1: Seq<Seq<char>>, itab2: Seq<Seq<char>>)
    requires
        tok_matches(t, st, itab1),
        itab1.is_prefix_of(itab2),
    ensures
        tok_matches(t, st, itab2),
{
    match st.lexeme {
        Some(text) => {
            let sym = t.lexeme->0;
            assert(itab1[sym.0 as int] == itab2[sym.0 as int]);
        },
        None => {},
    }
}

/// A classified identifier or keyword always carries a lexeme.
proof fn lemma_ident_or_kw_has_lexeme(text: Seq<char>)
    ensures
        Kind::spec_ident_or_kw(text).spec_has_lexeme(),
{
}

/// The cursor over the source text. `start` marks the beginning of the token
/// being built, `pos` the current read position; both count characters.
pub struct Scanner<'src> {
    pub src: &'src str,
    pub len: usize,
    pub start: usize,
    pub pos: usize,
}

impl<'src> Scanner<'src> {
    pub open spec fn wf(self) -> bool {
        &&& self.len == self.src@.len()
        &&& self.start <= self.pos <= self.len
    }

    pub fn new(src: &'src str) -> (r: Scanner<'src>)
        ensures
            r.wf(),
            r.src == src,
            r.start == 0,
            r.pos == 0,
    {
        let len = src.unicode_len();
        Scanner { src, len, start: 0, pos: 0 }
    }

    /// The span from the start of the token being built to the current
    /// position.
    fn make_span(&self) -> (r: Span)
        requires
            self.wf(),
        ensures
            r == (Span { start: self.start, len: (self.pos - self.start) as usize }),
            r.wf(),
    {
        Span { start: self.start, len: self.pos - self.start }
    }

    /// The character at the read position, if any, without consuming it.
    fn peekc(&self) -> (r: Option<char>)
        requires
            self.wf(),
        ensures
            r == if self.pos < self.len {
                Some(self.src@[self.pos as int])
            } else {
                None::<char>
            },
    {
        if self.pos < self.len {
            Some(self.src.get_char(self.pos))
        } else {
            None
        }
    }

    /// Consumes and returns the character at the read position, if any.
    fn nextc(&mut self) -> (r: Option<char>)
        requires
            old(self).wf(),
        ensures
            final(self).wf(),
            final(self).src == old(self).src,
            final(self).len == old(self).len,
            final(self).start == old(self).start,
            if old(self).pos < old(self).len {
                r == Some(old(self).src@[old(self).pos as int]) && final(self).pos == old(
                    self,
                ).pos + 1
            } else {
                r == None::<char> && final(self).pos == old(self).pos
            },
    {
        if self.pos < self.len {
            let c = self.src.get_char(self.pos);
            self.pos = self.pos + 1;
            Some(c)
        } else {
            None
        }
    }

    /// Advances past the whitespace run at the read position.
    fn skip_whitespace(&mut self)
        requires
            old(self).wf(),
        ensures
            final(self).wf(),
            final(self).src == old(self).src,
            final(self).len == old(self).len,
            final(self).start == old(self).start,
            final(self).pos == ws_run_end(old(self).src@, old(self).pos as int),
    {
        loop
            invariant
                self.wf(),
                self.src == old(self).src,
                self.len == old(self).len,
                self.start == old(self).start,
                ws_run_end(self.src@, self.pos as int) == ws_run_end(
                    old(self).src@,
                    old(self).pos as int,
                ),
            decreases self.len - self.pos,
        {
            if self.pos >= self.len {
                return ;
            }
            let c = self.src.get_char(self.pos);
            if !whitespace_char(c) {
                return ;
            }
            self.pos = self.pos + 1;
        }
    }

    /// Advances past the numeric-character run at the read position.
    fn advance_numeric(&mut self)
        requires
            old(self).wf(),
        ensures
            final(self).wf(),
            final(self).src == old(self).src,
            final(self).len == old(self).len,
            final(self).start == old(self).start,
            final(self).pos == num_run_end(old(self).src@, old(self).pos as int),
            old(self).pos <= final(self).pos,
    {
        proof {
            lemma_num_run_end(self.src@, self.pos as int);
        }
        loop
            invariant
                self.wf(),
                self.src == old(self).src,
                self.len == old(self).len,
                self.start == old(self).start,
                old(self).pos <= self.pos,
                num_run_end(self.src@, self.pos as int) == num_run_end(
                    old(self).src@,
                    old(self).pos as int,
                ),
            decreases self.len - self.pos,
        {
            if self.pos >= self.len {
                return ;
            }
            let c = self.src.get_char(self.pos);
            if !numeric_char(c) {
                return ;
            }
            self.pos = self.pos + 1;
        }
    }

    /// Advances past the identifier-character run at the read position.
    fn advance_ident(&mut self)
        requires
            old(self).wf(),
        ensures
            final(self).wf(),
            final(self).src == old(self).src,
            final(self).len == old(self).len,
            final(self).start == old(self).start,
            final(self).pos == ident_run_end(old(self).src@, old(self).pos as int),
            old(self).pos <= final(self).pos,
    {
        proof {
            lemma_ident_run_end(self.src@, self.pos as int);
        }
        loop
            invariant
                self.wf(),
                self.src == old(self).src,
                self.len == old(self).len,
                self.start == old(self).start,
                old(self).pos <= self.pos,
                ident_run_end(self.src@, self.pos as int) == ident_run_end(
                    old(self).src@,
                    old(self).pos as int,
                ),
            decreases self.len - self.pos,
        {
            if self.pos >= self.len {
                return ;
            }
            let c = self.src.get_char(self.pos);
            if !is_ident(c) {
                return ;
            }
            self.pos = self.pos + 1;
        }
    }

    /// Scans the numeric literal whose first character the scanner has just
    /// consumed: it takes the maximal digit run, then extends it over a `.`
    /// only when at least one digit follows the dot, rolling the cursor back
    /// to the end of the integer part otherwise.
    fn scan_number(&mut self, interner: &mut Interner) -> (t: Token)
        requires
            old(self).wf(),
            old(self).pos == old(self).start + 1,
            old(interner)@.len() <= u32::MAX as nat,
        ensures
            final(self).wf(),
            final(self).src == old(self).src,
            final(self).len == old(self).len,
            final(self).start == old(self).start,
            ({
                let st = spec_number(old(self).src@, old(self).start as int);
                &&& final(self).pos == st.end
                &&& tok_shape(t, st)
                &&& interned_lexeme(old(interner)@, final(interner)@, t, st)
                &&& t.wf()
                &&& t.valid_in(final(interner)@)
            }),
    {
        proof {
            lemma_num_run_end(self.src@, self.pos as int);
        }
        self.advance_numeric();
        let mut kind = Kind::IntLit;
        match self.peekc() {
            Some(c) => {
                if c == '.' {
                    let save = self.pos;
                    self.pos = self.pos + 1;
                    proof {
                        lemma_num_run_end(self.src@, self.pos as int);
                    }
                    self.advance_numeric();
                    if self.pos > save + 1 {
                        kind = Kind::FloatLit;
                    } else {
                        self.pos = save;
                    }
                }
            },
            None => {},
        }
        let text = self.src.substring_char(self.start, self.pos).to_owned();
        let sym = interner.insert(text);
        proof {
            crate::interner::lemma_insert_resolves(
                old(interner)@,
                old(self).src@.subrange(old(self).start as int, self.pos as int),
            );
        }
        Token { kind, span: self.make_span(), lexeme: Some(sym) }
    }

    /// Scans the identifier or keyword whose first character the scanner has
    /// just consumed.
    fn scan_ident(&mut self, interner: &mut Interner) -> (t: Token)
        requires
            old(self).wf(),
            old(self).pos == old(self).start + 1,
            old(interner)@.len() <= u32::MAX as nat,
        ensures
            final(self).wf(),
            final(self).src == old(self).src,
            final(self).len == old(self).len,
            final(self).start == old(self).start,
            ({
                let st = spec_ident_tok(old(self).src@, old(self).start as int);
                &&& final(self).pos == st.end
                &&& tok_shape(t, st)
                &&& interned_lexeme(old(interner)@, final(interner)@, t, st)
                &&& t.wf()
                &&& t.valid_in(final(interner)@)
            }),
    {
        proof {
            lemma_ident_run_end(self.src@, self.pos as int);
        }
        self.advance_ident();
        let text = self.src.substring_char(self.start, self.pos).to_owned();
        let kind = Kind::ident_or_kw(text.as_str());
        let sym = interner.insert(text);
        proof {
            crate::interner::lemma_insert_resolves(
                old(interner)@,
                old(self).src@.subrange(old(self).start as int, self.pos as int),
            );
            lemma_ident_or_kw_has_lexeme(old(self).src@.subrange(old(self).start as int, self.pos as int));
        }
        Token { kind, span: self.make_span(), lexeme: Some(sym) }
    }

    /// Scans the string literal whose opening quote the scanner has just
    /// consumed: everything up to the closing quote becomes the lexeme, and
    /// the closing quote itself is left unconsumed.
    fn scan_str(&mut self, interner: &mut Interner) -> (r: Result<Token, ScanError>)
        requires
            old(self).wf(),
            old(self).pos == old(self).start + 1,
            old(interner)@.len() <= u32::MAX as nat,
        ensures
            final(self).wf(),
            final(self).src == old(self).src,
            final(self).len == old(self).len,
            final(self).start == old(self).start,
            old(self).pos <= final(self).pos,
            match spec_str_lit(old(self).src@, old(self).start as int) {
                SpecScan::Tok(st) => ({
                    &&& r matches Ok(t)
                    &&& final(self).pos == st.end
                    &&& tok_shape(t, st)
                    &&& interned_lexeme(old(interner)@, final(interner)@, t, st)
                    &&& t.wf()
                    &&& t.valid_in(final(interner)@)
                }),
                SpecScan::Fail(e) => r == Err::<Token, ScanError>(e) && final(interner)@ == old(
                    interner,
                )@,
                SpecScan::End => false,
            },
    {
        proof {
            lemma_delim_run_end(self.src@, self.pos as int, '"');
        }
        self.advance_until('"');
        if self.pos >= self.len {
            return Err(ScanError::UnterminatedStrLiteral);
        }
        let text = self.src.substring_char(self.start + 1, self.pos).to_owned();
        let sym = interner.insert(text);
        proof {
            crate::interner::lemma_insert_resolves(
                old(interner)@,
                old(self).src@.subrange(old(self).start + 1, self.pos as int),
            );
        }
        Ok(Token { kind: Kind::StrLit, span: self.make_span(), lexeme: Some(sym) })
    }

    /// Scans the character literal whose opening quote the scanner has just
    /// consumed. The body must be one character, or a two-character escape
    /// starting with a backslash; the closing quote is left unconsumed.
    fn scan_char(&mut self, interner: &mut Interner) -> (r: Result<Token, ScanError>)
        requires
            old(self).wf(),
            old(self).pos == old(self).start + 1,
            old(interner)@.len() <= u32::MAX as nat,
        ensures
            final(self).wf(),
            final(self).src == old(self).src,
            final(self).len == old(self).len,
            final(self).start == old(self).start,
            old(self).pos <= final(self).pos,
            match spec_char_lit(old(self).src@, old(self).start as int) {
                SpecScan::Tok(st) => ({
                    &&& r matches Ok(t)
                    &&& final(self).pos == st.end
                    &&& tok_shape(t, st)
                    &&& interned_lexeme(old(interner)@, final(interner)@, t, st)
                    &&& t.wf()
                    &&& t.valid_in(final(interner)@)
                }),
                SpecScan::Fail(e) => r == Err::<Token, ScanError>(e) && final(interner)@ == old(
                    interner,
                )@,
                SpecScan::End => false,
            },
    {
        proof {
            lemma_delim_run_end(self.src@, self.pos as int, '\'');
        }
        self.advance_until('\'');
        let clen = self.pos - (self.start + 1);
        let not_char = if clen >= 2 {
            !(clen == 2 && self.src.get_char(self.start + 1) == '\\')
        } else {
            false
        };
        if not_char {
            return Err(ScanError::NotCharLiteral);
        }
        if self.pos >= self.len {
            return Err(ScanError::UnterminatedCharLiteral);
        }
        let text = self.src.substring_char(self.start + 1, self.pos).to_owned();
        let sym = interner.insert(text);
        proof {
            crate::interner::lemma_insert_resolves(
                old(interner)@,
                old(self).src@.subrange(old(self).start + 1, self.pos as int),
            );
        }
        Ok(Token { kind: Kind::CharLit, span: self.make_span(), lexeme: Some(sym) })
    }

    /// Advances up to, and not past, the next occurrence of `q`.
    fn advance_until(&mut self, q: char)
        requires
            old(self).wf(),
        ensures
            final(self).wf(),
            final(self).src == old(self).src,
            final(self).len == old(self).len,
            final(self).start == old(self).start,
            final(self).pos == delim_run_end(old(self).src@, old(self).pos as int, q),
            old(self).pos <= final(self).pos,
    {
        proof {
            lemma_delim_run_end(self.src@, self.pos as int, q);
        }
        loop
            invariant
                self.wf(),
                self.src == old(self).src,
                self.len == old(self).len,
                self.start == old(self).start,
                old(self).pos <= self.pos,
                delim_run_end(self.src@, self.pos as int, q) == delim_run_end(
                    old(self).src@,
                    old(self).pos as int,
                    q,
                ),
            decreases self.len - self.pos,
        {
            if self.pos >= self.len {
                return ;
            }
            let c = self.src.get_char(self.pos);
            if c == q {
                return ;
            }
            self.pos = self.pos + 1;
        }
    }

    /// A token without a lexeme covering the text built so far.
    fn mk_tok(&self, kind: Kind) -> (t: Token)
        requires
            self.wf(),
        ensures
            t == (Token {
                kind,
                span: Span { start: self.start, len: (self.pos - self.start) as usize },
                lexeme: None::<Symbol>,
            }),
    {
        Token { kind, span: self.make_span(), lexeme: None }
    }

    /// Scans one token: skips whitespace, then consumes and classifies the
    /// token that starts at the first remaining character. Returns `Ok(None)`
    /// once the input is exhausted; malformed character and string literals
    /// are reported per call, and the scanner is then left mid-literal.
    pub fn scan(&mut self, interner: &mut Interner) -> (r: Result<Option<Token>, ScanError>)
        requires
            old(self).wf(),
            old(interner)@.len() <= u32::MAX as nat,
        ensures
            final(self).wf(),
            final(self).src == old(self).src,
            final(self).len == old(self).len,
            old(self).pos <= final(self).pos,
            match spec_scan(old(self).src@, old(self).pos as int) {
                SpecScan::End => ({
                    &&& r == Ok::<Option<Token>, ScanError>(None::<Token>)
                    &&& final(interner)@ == old(interner)@
                    &&& final(self).pos == old(self).len
                    &&& final(self).start == final(self).pos
                }),
                SpecScan::Tok(st) => ({
                    &&& r matches Ok(Some(t))
                    &&& tok_shape(t, st)
                    &&& interned_lexeme(old(interner)@, final(interner)@, t, st)
                    &&& t.wf()
                    &&& t.valid_in(final(interner)@)
                    &&& final(self).start == st.start
                    &&& final(self).pos == st.end
                }),
                SpecScan::Fail(e) => ({
                    &&& r == Err::<Option<Token>, ScanError>(e)
                    &&& final(interner)@ == old(interner)@
                }),
            },
    {
        proof {
            lemma_ws_run_end(self.src@, self.pos as int);
        }
        self.skip_whitespace();
        self.start = self.pos;
        let c = match self.nextc() {
            None => {
                return Ok(None);
            },
            Some(c) => c,
        };
        match c {
            '[' => Ok(Some(self.mk_tok(Kind::LBrack))),
            ']' => Ok(Some(self.mk_tok(Kind::RBrack))),
            '(' => Ok(Some(self.mk_tok(Kind::LParen))),
            ')' => Ok(Some(self.mk_tok(Kind::RParen))),
            '.' => Ok(Some(self.mk_tok(Kind::Dot))),
            ',' => Ok(Some(self.mk_tok(Kind::Comma))),
            ';' => Ok(Some(self.mk_tok(Kind::Semi))),
            '|' => Ok(Some(self.mk_tok(Kind::Vert))),
            '~' => Ok(Some(self.mk_tok(Kind::Tilde))),
            '*' => Ok(Some(self.mk_tok(Kind::Star))),
            '&' => Ok(Some(self.mk_tok(Kind::Amp))),
            '+' => Ok(Some(self.mk_tok(Kind::Plus))),
            '#' => Ok(Some(self.mk_tok(Kind::Hash))),
            ':' => {
                match self.peekc() {
                    Some(c2) => {
                        if c2 == '=' {
                            self.pos = self.pos + 1;
                            Ok(Some(self.mk_tok(Kind::ColonEq)))
                        } else {
                            Ok(Some(self.mk_tok(Kind::Colon)))
                        }
                    },
                    None => Ok(Some(self.mk_tok(Kind::Colon))),
                }
            },
            '-' => {
                match self.peekc() {
                    Some(c2) => {
                        if c2 == '>' {
                            self.pos = self.pos + 1;
                            Ok(Some(self.mk_tok(Kind::RArrow)))
                        } else {
                            Ok(Some(self.mk_tok(Kind::Minus)))
                        }
                    },
                    None => Ok(Some(self.mk_tok(Kind::Minus))),
                }
            },
            '=' => {
                match self.peekc() {
                    Some(c2) => {
                        if c2 == '>' {
                            self.pos = self.pos + 1;
                            Ok(Some(self.mk_tok(Kind::RFatArrow)))
                        } else {
                            Ok(Some(self.mk_tok(Kind::Eq)))
                        }
                    },
                    None => Ok(Some(self.mk_tok(Kind::Eq))),
                }
            },
            '<' => {
                match self.peekc() {
                    Some(c2) => {
                        if c2 == '-' {
                            self.pos = self.pos + 1;
                            Ok(Some(self.mk_tok(Kind::LArrow)))
                        } else if c2 == '=' {
                            self.pos = self.pos + 1;
                            Ok(Some(self.mk_tok(Kind::LtEq)))
                        } else {
                            Ok(Some(self.mk_tok(Kind::Lt)))
                        }
                    },
                    None => Ok(Some(self.mk_tok(Kind::Lt))),
                }
            },
            '>' => {
                match self.peekc() {
                    Some(c2) => {
                        if c2 == '=' {
                            self.pos = self.pos + 1;
                            Ok(Some(self.mk_tok(Kind::GtEq)))
                        } else {
                            Ok(Some(self.mk_tok(Kind::Gt)))
                        }
                    },
                    None => Ok(Some(self.mk_tok(Kind::Gt))),
                }
            },
            '/' => {
                match self.peekc() {
                    Some(c2) => {
                        if c2 == '=' {
                            self.pos = self.pos + 1;
                            Ok(Some(self.mk_tok(Kind::Neq)))
                        } else {
                            Ok(Some(self.mk_tok(Kind::Slash)))
                        }
                    },
                    None => Ok(Some(self.mk_tok(Kind::Slash))),
                }
            },
            '_' => {
                match self.peekc() {
                    Some(c2) => {
                        if is_ident(c2) {
                            Ok(Some(self.scan_ident(interner)))
                        } else {
                            Ok(Some(self.mk_tok(Kind::Underscore)))
                        }
                    },
                    None => Ok(Some(self.mk_tok(Kind::Underscore))),
                }
            },
            '"' => {
                match self.scan_str(interner) {
                    Ok(t) => Ok(Some(t)),
                    Err(e) => Err(e),
                }
            },
            '\'' => {
                match self.scan_char(interner) {
                    Ok(t) => Ok(Some(t)),
                    Err(e) => Err(e),
                }
            },
            c => {
                if numeric_char(c) {
                    Ok(Some(self.scan_number(interner)))
                } else {
                    Ok(Some(self.scan_ident(interner)))
                }
            },
        }
    }

    /// Scans the whole remaining input into a token vector, or reports the
    /// first scanning failure.
    pub fn stream(&mut self, interner: &mut Interner) -> (r: Result<Vec<Token>, ScanError>)
        requires
            old(self).wf(),
            old(interner)@.len() + old(self).src@.len() <= u32::MAX as nat,
        ensures
            final(self).wf(),
            final(self).src == old(self).src,
            final(self).len == old(self).len,
            old(interner)@.is_prefix_of(final(interner)@),
            match spec_tokens(old(self).src@, old(self).pos as int) {
                Ok(sts) => ({
                    &&& r matches Ok(toks)
                    &&& toks@.len() == sts.len()
                    &&& forall|k: int|
                        0 <= k < sts.len() ==> tok_matches(
                            #[trigger] toks@[k],
                            sts[k],
                            final(interner)@,
                        )
                }),
                Err(e) => r == Err::<Vec<Token>, ScanError>(e),
            },
    {
        let mut toks: Vec<Token> = Vec::new();
        let mut failure: Option<ScanError> = None;
        let ghost src0 = self.src@;
        let ghost pos0 = self.pos as int;
        let ghost itab0 = interner@;
        let ghost mut gsts: Seq<SpecTok> = Seq::empty();
        proof {
            assert(spec_tokens_concat(gsts, spec_tokens(src0, pos0)) == spec_tokens(src0, pos0))
                by {
                match spec_tokens(src0, pos0) {
                    Ok(rest) => {
                        assert(gsts + rest =~= rest);
                    },
                    Err(_) => {},
                }
            }
        }
        loop
            invariant_except_break
                self.wf(),
                self.src == old(self).src,
                self.len == old(self).len,
                src0 == self.src@,
                pos0 <= self.pos as int,
                itab0.is_prefix_of(interner@),
                interner@.len() + (self.src@.len() - self.pos as int) <= u32::MAX as nat,
                toks@.len() == gsts.len(),
                forall|k: int|
                    0 <= k < gsts.len() ==> tok_matches(#[trigger] toks@[k], gsts[k], interner@),
                spec_tokens(src0, pos0) == spec_tokens_concat(
                    gsts,
                    spec_tokens(src0, self.pos as int),
                ),
                failure is None,
            ensures
                self.wf(),
                self.src == old(self).src,
                self.len == old(self).len,
                itab0.is_prefix_of(interner@),
                toks@.len() == gsts.len(),
                forall|k: int|
                    0 <= k < gsts.len() ==> tok_matches(#[trigger] toks@[k], gsts[k], interner@),
                match failure {
                    Some(e) => spec_tokens(src0, pos0) == Err::<Seq<SpecTok>, ScanError>(e),
                    None => spec_tokens(src0, pos0) == Ok::<Seq<SpecTok>, ScanError>(gsts),
                },
            decreases self.len - self.pos,
        {
            proof {
                lemma_spec_scan_bounds(self.src@, self.pos as int);
            }
            let ghost posk = self.pos as int;
            let ghost itabk = interner@;
            let res = self.scan(interner);
            match res {
                Err(e) => {
                    failure = Some(e);
                    break ;
                },
                Ok(None) => {
                    proof {
                        assert(gsts + Seq::<SpecTok>::empty() =~= gsts);
                    }
                    break ;
                },
                Ok(Some(t)) => {
                    proof {
                        let st = spec_scan(src0, posk)->Tok_0;
                        let text = st.lexeme;
                        match text {
                            Some(tx) => {
                                crate::interner::lemma_insert_resolves(itabk, tx);
                            },
                            None => {},
                        }
                        assert(itabk.is_prefix_of(interner@));
                        assert(itab0.is_prefix_of(interner@)) by {
                            assert forall|k: int| 0 <= k < itab0.len() implies itab0[k]
                                == interner@[k] by {
                                assert(itab0[k] == itabk[k]);
                            }
                            assert(itab0 =~= interner@.subrange(0, itab0.len() as int));
                        }
                        assert(tok_matches(t, st, interner@));
                        assert forall|k: int| 0 <= k < gsts.len() implies tok_matches(
                            #[trigger] toks@[k],
                            gsts[k],
                            interner@,
                        ) by {
                            lemma_tok_matches_grow(toks@[k], gsts[k], itabk, interner@);
                        }
                        match spec_tokens(src0, st.end) {
                            Ok(rest) => {
                                assert(gsts + (seq![st] + rest) =~= gsts.push(st) + rest);
                            },
                            Err(_) => {},
                        }
                        gsts = gsts.push(st);
                    }
                    toks.push(t);
                },
            }
        }
        match failure {
            Some(e) => Err(e),
            None => Ok(toks),
        }
    }
}

proof fn lemma_ws_run_consumes_all(src: Seq<char>, pos: int)
    requires
        0 <= pos <= src.len(),
        forall|k: int| pos <= k < src.len() ==> is_whitespace_char(#[trigger] src[k]),
    ensures
        ws_run_end(src, pos) == src.len(),
    decreases src.len() - pos,
{
    if pos < src.len() {
        lemma_ws_run_consumes_all(src, pos + 1);
    }
}

/// An input that holds nothing but whitespace from `pos` on scans to its end
/// and yields no token at all.
pub proof fn lemma_whitespace_only_scans_empty(src: Seq<char>, pos: int)
    requires
        0 <= pos <= src.len(),
        forall|k: int| pos <= k < src.len() ==> is_whitespace_char(#[trigger] src[k]),
    ensures
        spec_tokens(src, pos) == Ok::<Seq<SpecTok>, ScanError>(Seq::<SpecTok>::empty()),
{
    lemma_ws_run_consumes_all(src, pos);
}

/// The token at position `i`, if any.
pub open spec fn spec_peek(toks: Seq<Token>, i: int) -> Option<Token> {
    if 0 <= i < toks.len() {
        Some(toks[i])
    } else {
        None
    }
}

/// A pull-based, peekable token source: the parser's one- and two-token
/// lookahead goes through `peek` and the conditional-consume operations.
pub struct TokenStream {
    pub toks: Vec<Token>,
    pub pos: usize,
}

impl TokenStream {
    /// The stream is well formed when its position is in range and every
    /// token it holds is well formed.
    pub open spec fn wf(self) -> bool {
        &&& self.pos <= self.toks@.len()
        &&& forall|k: int| 0 <= k < self.toks@.len() ==> (#[trigger] self.toks@[k]).wf()
    }

    pub fn new(toks: Vec<Token>) -> (r: TokenStream)
        ensures
            r == (TokenStream { toks, pos: 0 }),
    {
        TokenStream { toks, pos: 0 }
    }

    /// The next token, without consuming it.
    pub fn peek(&self) -> (r: Option<Token>)
        ensures
            r == spec_peek(self.toks@, self.pos as int),
    {
        if self.pos < self.toks.len() {
            Some(self.toks[self.pos])
        } else {
            None
        }
    }

    /// Consumes and returns the next token only when its category satisfies
    /// `f`; otherwise the stream is unchanged.
    pub fn next_if<F: Fn(Kind) -> bool>(&mut self, f: F) -> (r: Option<Token>)
        requires
            forall|k: Kind| #[trigger] f.requires((k,)),
        ensures
            final(self).toks == old(self).toks,
            match spec_peek(old(self).toks@, old(self).pos as int) {
                Some(t) => {
                    ||| (r == Some(t) && final(self).pos == old(self).pos + 1 && f.ensures(
                        (t.kind,),
                        true,
                    ))
                    ||| (r == None::<Token> && final(self).pos == old(self).pos && f.ensures(
                        (t.kind,),
                        false,
                    ))
                },
                None => r == None::<Token> && final(self).pos == old(self).pos,
            },
    {
        if self.pos < self.toks.len() {
            let t = self.toks[self.pos];
            if f(t.kind()) {
                self.pos = self.pos + 1;
                Some(t)
            } else {
                None
            }
        } else {
            None
        }
    }

    /// Consumes and returns the next token only when its category is exactly
    /// `kind`; otherwise the stream is unchanged.
    pub fn next_if_is(&mut self, kind: Kind) -> (r: Option<Token>)
        ensures
            final(self).toks == old(self).toks,
            match spec_peek(old(self).toks@, old(self).pos as int) {
                Some(t) => {
                    if t.kind == kind {
                        r == Some(t) && final(self).pos == old(self).pos + 1
                    } else {
                        r == None::<Token> && final(self).pos == old(self).pos
                    }
                },
                None => r == None::<Token> && final(self).pos == old(self).pos,
            },
    {
        if self.pos < self.toks.len() {
            let t = self.toks[self.pos];
            if t.kind() == kind {
                self.pos = self.pos + 1;
                Some(t)
            } else {
                None
            }
        } else {
            None
        }
    }
}

} // verus!
