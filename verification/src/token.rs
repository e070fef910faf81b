//! Lexical categories and tokens.

use vstd::prelude::*;
use vstd::string::StrSliceExecFns;
use crate::interner::{Interner, Symbol};
use crate::span::Span;

verus! {

/// The closed set of lexical categories: punctuation, one- and two-character
/// operators, literal categories, and reserved keywords.
#[derive(Clone, Copy, Debug, PartialEq, Eq, Structural)]
pub enum Kind {
    // one-character tokens
    LBrack,
    RBrack,
    LParen,
    RParen,
    Dot,
    Comma,
    Semi,
    Vert,
    Tilde,
    Star,
    Amp,
    Plus,
    Hash,
    // characters that may begin a longer operator
    Colon,
    Underscore,
    Minus,
    Eq,
    Lt,
    Gt,
    Slash,
    // two-character tokens
    LtEq,
    GtEq,
    Neq,
    ColonEq,
    LArrow,
    RArrow,
    RFatArrow,
    // literals
    IntLit,
    FloatLit,
    ComplexLit,
    CharLit,
    StrLit,
    Ident,
    // keywords
    Char,
    Bool,
    U8,
    U16,
    U32,
    U64,
    I8,
    I16,
    I32,
    I64,
    F32,
    F64,
    C32,
    C64,
    Raw,
    Record,
    Type,
    Pub,
    Let,
    Mut,
    Fun,
    Begin,
    End,
    Impl,
    If,
    Is,
    Then,
    Elif,
    Else,
    Match,
    With,
    Loop,
    For,
    In,
    Do,
    Module,
    Import,
    Root,
    When,
}

impl Kind {
    /// Whether this category is a reserved keyword.
    pub open spec fn spec_is_kw(self) -> bool {
        match self {
            Kind::Char | Kind::Bool | Kind::U8 | Kind::U16 | Kind::U32 | Kind::U64 | Kind::I8
                | Kind::I16 | Kind::I32 | Kind::I64 | Kind::F32 | Kind::F64 | Kind::C32
                | Kind::C64 | Kind::Raw | Kind::Record | Kind::Type | Kind::Pub | Kind::Let
                | Kind::Mut | Kind::Fun | Kind::Begin | Kind::End | Kind::Impl | Kind::If
                | Kind::Is | Kind::Then | Kind::Elif | Kind::Else | Kind::Match | Kind::With
                | Kind::Loop | Kind::For | Kind::In | Kind::Do | Kind::Module | Kind::Import
                | Kind::Root | Kind::When => true,
            _ => false,
        }
    }

    /// Whether tokens of this category carry their text as an interned
    /// lexeme: literal and identifier categories do, and so do keywords
    /// (their text is kept for diagnostics).
    pub open spec fn spec_has_lexeme(self) -> bool {
        match self {
            Kind::IntLit | Kind::FloatLit | Kind::ComplexLit | Kind::CharLit | Kind::StrLit
                | Kind::Ident => true,
            _ => self.spec_is_kw(),
        }
    }

    pub fn is_kw(self) -> (r: bool)
        ensures
            r == self.spec_is_kw(),
    {
        match self {
            Kind::Char | Kind::Bool | Kind::U8 | Kind::U16 | Kind::U32 | Kind::U64 | Kind::I8
                | Kind::I16 | Kind::I32 | Kind::I64 | Kind::F32 | Kind::F64 | Kind::C32
                | Kind::C64 | Kind::Raw | Kind::Record | Kind::Type | Kind::Pub | Kind::Let
                | Kind::Mut | Kind::Fun | Kind::Begin | Kind::End | Kind::Impl | Kind::If
                | Kind::Is | Kind::Then | Kind::Elif | Kind::Else | Kind::Match | Kind::With
                | Kind::Loop | Kind::For | Kind::In | Kind::Do | Kind::Module | Kind::Import
                | Kind::Root | Kind::When => true,
            _ => false,
        }
    }

    /// The fixed canonical text of this category, or `None` for the literal
    /// and identifier categories, whose text varies from token to token.
    pub open spec fn spec_repr(self) -> Option<Seq<char>> {
        match self {
            Kind::IntLit | Kind::FloatLit | Kind::ComplexLit | Kind::CharLit | Kind::StrLit
                | Kind::Ident => None,
            Kind::LBrack => Some("["@),
            Kind::RBrack => Some("]"@),
            Kind::LParen => Some("("@),
            Kind::RParen => Some(")"@),
            Kind::Dot => Some("."@),
            Kind::Comma => Some(","@),
            Kind::Semi => Some(";"@),
            Kind::Vert => Some("|"@),
            Kind::Tilde => Some("~"@),
            Kind::Star => Some("*"@),
            Kind::Amp => Some("&"@),
            Kind::Plus => Some("+"@),
            Kind::Hash => Some("#"@),
            Kind::Colon => Some(":"@),
            Kind::Underscore => Some("_"@),
            Kind::Minus => Some("-"@),
            Kind::Eq => Some("="@),
            Kind::Lt => Some("<"@),
            Kind::Gt => Some(">"@),
            Kind::Slash => Some("/"@),
            Kind::LtEq => Some("<="@),
            Kind::GtEq => Some(">="@),
            Kind::Neq => Some("/="@),
            Kind::ColonEq => Some(":="@),
            Kind::LArrow => Some("<-"@),
            Kind::RArrow => Some("->"@),
            Kind::RFatArrow => Some("=>"@),
            Kind::Char => Some("char"@),
            Kind::Bool => Some("bool"@),
            Kind::U8 => Some("u8"@),
            Kind::U16 => Some("u16"@),
            Kind::U32 => Some("u32"@),
            Kind::U64 => Some("u64"@),
            Kind::I8 => Some("i8"@),
            Kind::I16 => Some("i16"@),
            Kind::I32 => Some("i32"@),
            Kind::I64 => Some("i64"@),
            Kind::F32 => Some("f32"@),
            Kind::F64 => Some("f64"@),
            Kind::C32 => Some("c32"@),
            Kind::C64 => Some("c64"@),
            Kind::Raw => Some("raw"@),
            Kind::Record => Some("record"@),
            Kind::Type => Some("type"@),
            Kind::Pub => Some("pub"@),
            Kind::Let => Some("let"@),
            Kind::Mut => Some("mut"@),
            Kind::Fun => Some("fun"@),
            Kind::Begin => Some("begin"@),
            Kind::End => Some("end"@),
            Kind::Impl => Some("impl"@),
            Kind::If => Some("if"@),
            Kind::Is => Some("is"@),
            Kind::Then => Some("then"@),
            Kind::Elif => Some("elif"@),
            Kind::Else => Some("else"@),
            Kind::Match => Some("match"@),
            Kind::With => Some("with"@),
            Kind::Loop => Some("loop"@),
            Kind::For => Some("for"@),
            Kind::In => Some("in"@),
            Kind::Do => Some("do"@),
            Kind::Module => Some("module"@),
            Kind::Import => Some("import"@),
            Kind::Root => Some("root"@),
            Kind::When => Some("when"@),
        }
    }

    pub fn repr(self) -> (r: Option<&'static str>)
        ensures
            match r {
                Some(s) => self.spec_repr() == Some(s@),
                None => self.spec_repr() is None,
            },
    {
        match self {
            Kind::IntLit | Kind::FloatLit | Kind::ComplexLit | Kind::CharLit | Kind::StrLit
                | Kind::Ident => None,
            Kind::LBrack => Some("["),
            Kind::RBrack => Some("]"),
            Kind::LParen => Some("("),
            Kind::RParen => Some(")"),
            Kind::Dot => Some("."),
            Kind::Comma => Some(","),
            Kind::Semi => Some(";"),
            Kind::Vert => Some("|"),
            Kind::Tilde => Some("~"),
            Kind::Star => Some("*"),
            Kind::Amp => Some("&"),
            Kind::Plus => Some("+"),
            Kind::Hash => Some("#"),
            Kind::Colon => Some(":"),
            Kind::Underscore => Some("_"),
            Kind::Minus => Some("-"),
            Kind::Eq => Some("="),
            Kind::Lt => Some("<"),
            Kind::Gt => Some(">"),
            Kind::Slash => Some("/"),
            Kind::LtEq => Some("<="),
            Kind::GtEq => Some(">="),
            Kind::Neq => Some("/="),
            Kind::ColonEq => Some(":="),
            Kind::LArrow => Some("<-"),
            Kind::RArrow => Some("->"),
            Kind::RFatArrow => Some("=>"),
            Kind::Char => Some("char"),
            Kind::Bool => Some("bool"),
            Kind::U8 => Some("u8"),
            Kind::U16 => Some("u16"),
            Kind::U32 => Some("u32"),
            Kind::U64 => Some("u64"),
            Kind::I8 => Some("i8"),
            Kind::I16 => Some("i16"),
            Kind::I32 => Some("i32"),
            Kind::I64 => Some("i64"),
            Kind::F32 => Some("f32"),
            Kind::F64 => Some("f64"),
            Kind::C32 => Some("c32"),
            Kind::C64 => Some("c64"),
            Kind::Raw => Some("raw"),
            Kind::Record => Some("record"),
            Kind::Type => Some("type"),
            Kind::Pub => Some("pub"),
            Kind::Let => Some("let"),
            Kind::Mut => Some("mut"),
            Kind::Fun => Some("fun"),
            Kind::Begin => Some("begin"),
            Kind::End => Some("end"),
            Kind::Impl => Some("impl"),
            Kind::If => Some("if"),
            Kind::Is => Some("is"),
            Kind::Then => Some("then"),
            Kind::Elif => Some("elif"),
            Kind::Else => Some("else"),
            Kind::Match => Some("match"),
            Kind::With => Some("with"),
            Kind::Loop => Some("loop"),
            Kind::For => Some("for"),
            Kind::In => Some("in"),
            Kind::Do => Some("do"),
            Kind::Module => Some("module"),
            Kind::Import => Some("import"),
            Kind::Root => Some("root"),
            Kind::When => Some("when"),
        }
    }

    /// The category of an identifier-shaped text: the matching keyword if the
    /// text is one of the reserved words, and `Ident` otherwise.
    pub open spec fn spec_ident_or_kw(text: Seq<char>) -> Kind {
        if text == "char"@ {
            Kind::Char
        } else if text == "bool"@ {
            Kind::Bool
        } else if text == "u8"@ {
            Kind::U8
        } else if text == "u16"@ {
            Kind::U16
        } else if text == "u32"@ {
            Kind::U32
        } else if text == "u64"@ {
            Kind::U64
        } else if text == "i8"@ {
            Kind::I8
        } else if text == "i16"@ {
            Kind::I16
        } else if text == "i32"@ {
            Kind::I32
        } else if text == "i64"@ {
            Kind::I64
        } else if text == "f32"@ {
            Kind::F32
        } else if text == "f64"@ {
            Kind::F64
        } else if text == "c32"@ {
            Kind::C32
        } else if text == "c64"@ {
            Kind::C64
        } else if text == "raw"@ {
            Kind::Raw
        } else if text == "record"@ {
            Kind::Record
        } else if text == "type"@ {
            Kind::Type
        } else if text == "pub"@ {
            Kind::Pub
        } else if text == "let"@ {
            Kind::Let
        } else if text == "mut"@ {
            Kind::Mut
        } else if text == "fun"@ {
            Kind::Fun
        } else if text == "begin"@ {
            Kind::Begin
        } else if text == "end"@ {
            Kind::End
        } else if text == "impl"@ {
            Kind::Impl
        } else if text == "if"@ {
            Kind::If
        } else if text == "is"@ {
            Kind::Is
        } else if text == "then"@ {
            Kind::Then
        } else if text == "elif"@ {
            Kind::Elif
        } else if text == "else"@ {
            Kind::Else
        } else if text == "match"@ {
            Kind::Match
        } else if text == "with"@ {
            Kind::With
        } else if text == "loop"@ {
            Kind::Loop
        } else if text == "for"@ {
            Kind::For
        } else if text == "in"@ {
            Kind::In
        } else if text == "do"@ {
            Kind::Do
        } else if text == "module"@ {
            Kind::Module
        } else if text == "import"@ {
            Kind::Import
        } else if text == "root"@ {
            Kind::Root
        } else if text == "when"@ {
            Kind::When
        } else {
            Kind::Ident
        }
    }

    pub fn ident_or_kw(s: &str) -> (k: Kind)
        ensures
            k == Kind::spec_ident_or_kw(s@),
    {
        if str_eq(s, "char") {
            Kind::Char
        } else if str_eq(s, "bool") {
            Kind::Bool
        } else if str_eq(s, "u8") {
            Kind::U8
        } else if str_eq(s, "u16") {
            Kind::U16
        } else if str_eq(s, "u32") {
            Kind::U32
        } else if str_eq(s, "u64") {
            Kind::U64
        } else if str_eq(s, "i8") {
            Kind::I8
        } else if str_eq(s, "i16") {
            Kind::I16
        } else if str_eq(s, "i32") {
            Kind::I32
        } else if str_eq(s, "i64") {
            Kind::I64
        } else if str_eq(s, "f32") {
            Kind::F32
        } else if str_eq(s, "f64") {
            Kind::F64
        } else if str_eq(s, "c32") {
            Kind::C32
        } else if str_eq(s, "c64") {
            Kind::C64
        } else if str_eq(s, "raw") {
            Kind::Raw
        } else if str_eq(s, "record") {
            Kind::Record
        } else if str_eq(s, "type") {
            Kind::Type
        } else if str_eq(s, "pub") {
            Kind::Pub
        } else if str_eq(s, "let") {
            Kind::Let
        } else if str_eq(s, "mut") {
            Kind::Mut
        } else if str_eq(s, "fun") {
            Kind::Fun
        } else if str_eq(s, "begin") {
            Kind::Begin
        } else if str_eq(s, "end") {
            Kind::End
        } else if str_eq(s, "impl") {
            Kind::Impl
        } else if str_eq(s, "if") {
            Kind::If
        } else if str_eq(s, "is") {
            Kind::Is
        } else if str_eq(s, "then") {
            Kind::Then
        } else if str_eq(s, "elif") {
            Kind::Elif
        } else if str_eq(s, "else") {
            Kind::Else
        } else if str_eq(s, "match") {
            Kind::Match
        } else if str_eq(s, "with") {
            Kind::With
        } else if str_eq(s, "loop") {
            Kind::Loop
        } else if str_eq(s, "for") {
            Kind::For
        } else if str_eq(s, "in") {
            Kind::In
        } else if str_eq(s, "do") {
            Kind::Do
        } else if str_eq(s, "module") {
            Kind::Module
        } else if str_eq(s, "import") {
            Kind::Import
        } else if str_eq(s, "root") {
            Kind::Root
        } else if str_eq(s, "when") {
            Kind::When
        } else {
            Kind::Ident
        }
    }
}

/// Character-by-character string comparison.
fn str_eq(a: &str, b: &str) -> (r: bool)
    ensures
        r == (a@ == b@),
{
    let n = a.unicode_len();
    let m = b.unicode_len();
    if n != m {
        return false;
    }
    let mut i: usize = 0;
    while i < n
        invariant
            n == a@.len(),
            n == b@.len(),
            0 <= i <= n,
            forall|k: int| 0 <= k < i ==> a@[k] == b@[k],
        decreases n - i,
    {
        if a.get_char(i) != b.get_char(i) {
            return false;
        }
        i += 1;
    }
    proof {
        assert(a@ =~= b@);
    }
    true
}

/// One lexical token: its category, the source range it covers, and its
/// interned text when the category alone does not fix the text.
#[derive(Clone, Copy, Debug)]
pub struct Token {
    pub kind: Kind,
    pub span: Span,
    pub lexeme: Option<Symbol>,
}

impl Token {
    /// A token is well formed when its span does not overflow and it carries
    /// a lexeme exactly when its category calls for one.
    pub open spec fn wf(self) -> bool {
        &&& self.span.wf()
        &&& self.kind.spec_has_lexeme() <==> self.lexeme is Some
    }

    /// Whether the token's lexeme, if any, is a handle that `table` has
    /// issued.
    pub open spec fn valid_in(self, table: Seq<Seq<char>>) -> bool {
        self.lexeme matches Some(sym) ==> sym.0 < table.len()
    }

    /// The token's text: the category's canonical text where it has one, and
    /// the interned lexeme otherwise.
    pub open spec fn spec_repr(self, table: Seq<Seq<char>>) -> Seq<char> {
        match self.kind.spec_repr() {
            Some(s) => s,
            None => table[(self.lexeme->0).0 as int],
        }
    }

    pub fn new(kind: Kind, span: Span, lexeme: Option<Symbol>) -> (t: Token)
        ensures
            t == (Token { kind, span, lexeme }),
    {
        Token { kind, span, lexeme }
    }

    pub fn kind(self) -> (r: Kind)
        ensures
            r == self.kind,
    {
        self.kind
    }

    pub fn span(self) -> (r: Span)
        ensures
            r == self.span,
    {
        self.span
    }

    pub fn lexeme(self) -> (r: Option<Symbol>)
        ensures
            r == self.lexeme,
    {
        self.lexeme
    }

    pub fn repr<'a>(self, interner: &'a Interner) -> (r: &'a str)
        requires
            self.wf(),
            self.valid_in(interner@),
        ensures
            r@ == self.spec_repr(interner@),
    {
        match self.kind.repr() {
            Some(s) => s,
            None => match self.lexeme {
                Some(sym) => interner.get(sym),
                None => {
                    proof {
                        assert(false);
                    }
                    ""
                },
            },
        }
    }
}

} // verus!
