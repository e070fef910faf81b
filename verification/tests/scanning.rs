use tyfront::interner::Interner;
use tyfront::lexer::{ScanError, Scanner};
use tyfront::token::{Kind, Token};

fn scan_all(src: &str) -> (Vec<Token>, Interner) {
    let mut interner = Interner::new();
    let mut scanner = Scanner::new(src);
    let toks = scanner.stream(&mut interner).expect("scan failed");
    (toks, interner)
}

fn lexeme_text(tok: Token, interner: &Interner) -> String {
    interner.get(tok.lexeme().expect("token should carry a lexeme")).to_string()
}

#[test]
fn scan_integer_literal() {
    let (toks, interner) = scan_all("12");
    assert_eq!(toks.len(), 1);
    assert_eq!(toks[0].kind(), Kind::IntLit);
    assert_eq!(lexeme_text(toks[0], &interner), "12");
    assert_eq!(toks[0].span().start(), 0);
    assert_eq!(toks[0].span().len(), 2);
}

#[test]
fn scan_float_literal() {
    let (toks, interner) = scan_all("12.5");
    assert_eq!(toks.len(), 1);
    assert_eq!(toks[0].kind(), Kind::FloatLit);
    assert_eq!(lexeme_text(toks[0], &interner), "12.5");
    assert_eq!(toks[0].span().start(), 0);
    assert_eq!(toks[0].span().len(), 4);
}

#[test]
fn scan_integer_then_dot_rolls_back() {
    let (toks, interner) = scan_all("12.");
    assert_eq!(toks.len(), 2);
    assert_eq!(toks[0].kind(), Kind::IntLit);
    assert_eq!(lexeme_text(toks[0], &interner), "12");
    assert_eq!(toks[1].kind(), Kind::Dot);
    // no rollback artifact: the dot starts exactly where the digits end
    assert_eq!(toks[1].span().start(), 2);
    assert_eq!(toks[1].span().len(), 1);
}

#[test]
fn scan_dot_then_non_digit_is_not_float() {
    let (toks, interner) = scan_all("12.x");
    assert_eq!(toks.len(), 3);
    assert_eq!(toks[0].kind(), Kind::IntLit);
    assert_eq!(lexeme_text(toks[0], &interner), "12");
    assert_eq!(toks[1].kind(), Kind::Dot);
    assert_eq!(toks[2].kind(), Kind::Ident);
    assert_eq!(lexeme_text(toks[2], &interner), "x");
}

#[test]
fn scan_colon_eq() {
    let (toks, _) = scan_all(":=");
    assert_eq!(toks.len(), 1);
    assert_eq!(toks[0].kind(), Kind::ColonEq);
    assert_eq!(toks[0].span().len(), 2);
}

#[test]
fn scan_colon_alone() {
    let (toks, _) = scan_all(":");
    assert_eq!(toks.len(), 1);
    assert_eq!(toks[0].kind(), Kind::Colon);
}

#[test]
fn scan_colon_not_followed_by_eq() {
    let (toks, _) = scan_all(": =");
    assert_eq!(toks.len(), 2);
    assert_eq!(toks[0].kind(), Kind::Colon);
    assert_eq!(toks[1].kind(), Kind::Eq);
}

#[test]
fn scan_two_character_operators() {
    let cases = [
        ("->", Kind::RArrow),
        ("<-", Kind::LArrow),
        ("<=", Kind::LtEq),
        (">=", Kind::GtEq),
        ("=>", Kind::RFatArrow),
        ("/=", Kind::Neq),
    ];
    for (src, kind) in cases {
        let (toks, _) = scan_all(src);
        assert_eq!(toks.len(), 1, "{} should be one token", src);
        assert_eq!(toks[0].kind(), kind, "{} has the wrong kind", src);
        assert_eq!(toks[0].span().len(), 2);
    }
}

#[test]
fn scan_one_character_fallbacks() {
    let cases = [
        ("-", Kind::Minus),
        ("<", Kind::Lt),
        (">", Kind::Gt),
        ("=", Kind::Eq),
        ("/", Kind::Slash),
    ];
    for (src, kind) in cases {
        let (toks, _) = scan_all(src);
        assert_eq!(toks.len(), 1, "{} should be one token", src);
        assert_eq!(toks[0].kind(), kind, "{} has the wrong kind", src);
    }
}

#[test]
fn scan_punctuation() {
    let (toks, _) = scan_all("[ ] ( ) . , ; | ~ * & + #");
    let expected = [
        Kind::LBrack,
        Kind::RBrack,
        Kind::LParen,
        Kind::RParen,
        Kind::Dot,
        Kind::Comma,
        Kind::Semi,
        Kind::Vert,
        Kind::Tilde,
        Kind::Star,
        Kind::Amp,
        Kind::Plus,
        Kind::Hash,
    ];
    assert_eq!(toks.len(), expected.len());
    for (tok, kind) in toks.iter().zip(expected) {
        assert_eq!(tok.kind(), kind);
    }
}

#[test]
fn scan_underscore_starts_identifier() {
    let (toks, interner) = scan_all("_foo");
    assert_eq!(toks.len(), 1);
    assert_eq!(toks[0].kind(), Kind::Ident);
    assert_eq!(lexeme_text(toks[0], &interner), "_foo");
}

#[test]
fn scan_underscore_alone() {
    let (toks, _) = scan_all("_ x");
    assert_eq!(toks.len(), 2);
    assert_eq!(toks[0].kind(), Kind::Underscore);
    assert!(toks[0].lexeme().is_none());
    assert_eq!(toks[1].kind(), Kind::Ident);
}

#[test]
fn scan_keywords_keep_their_text() {
    let (toks, interner) = scan_all("type record fun");
    assert_eq!(toks.len(), 3);
    assert_eq!(toks[0].kind(), Kind::Type);
    assert_eq!(toks[1].kind(), Kind::Record);
    assert_eq!(toks[2].kind(), Kind::Fun);
    assert_eq!(lexeme_text(toks[0], &interner), "type");
    assert_eq!(lexeme_text(toks[1], &interner), "record");
    assert_eq!(lexeme_text(toks[2], &interner), "fun");
}

#[test]
fn scan_string_literal() {
    let mut interner = Interner::new();
    let mut scanner = Scanner::new("\"hi\"");
    let tok = scanner.scan(&mut interner).unwrap().unwrap();
    assert_eq!(tok.kind(), Kind::StrLit);
    assert_eq!(interner.get(tok.lexeme().unwrap()), "hi");
    assert_eq!(tok.span().start(), 0);
}

#[test]
fn scan_char_literal() {
    let mut interner = Interner::new();
    let mut scanner = Scanner::new("'a'");
    let tok = scanner.scan(&mut interner).unwrap().unwrap();
    assert_eq!(tok.kind(), Kind::CharLit);
    assert_eq!(interner.get(tok.lexeme().unwrap()), "a");
}

#[test]
fn scan_char_literal_escape() {
    let mut interner = Interner::new();
    let mut scanner = Scanner::new("'\\n'");
    let tok = scanner.scan(&mut interner).unwrap().unwrap();
    assert_eq!(tok.kind(), Kind::CharLit);
    assert_eq!(interner.get(tok.lexeme().unwrap()), "\\n");
}

#[test]
fn scan_unterminated_string() {
    let mut interner = Interner::new();
    let mut scanner = Scanner::new("\"abc");
    assert_eq!(scanner.scan(&mut interner).unwrap_err(), ScanError::UnterminatedStrLiteral);
}

#[test]
fn scan_unterminated_char() {
    let mut interner = Interner::new();
    let mut scanner = Scanner::new("'a");
    assert_eq!(scanner.scan(&mut interner).unwrap_err(), ScanError::UnterminatedCharLiteral);
}

#[test]
fn scan_overlong_char_literal() {
    let mut interner = Interner::new();
    let mut scanner = Scanner::new("'abc'");
    assert_eq!(scanner.scan(&mut interner).unwrap_err(), ScanError::NotCharLiteral);
}

#[test]
fn scan_whitespace_only_yields_no_tokens() {
    let (toks, _) = scan_all("  \n\t  ");
    assert_eq!(toks.len(), 0);
    let (toks, _) = scan_all("");
    assert_eq!(toks.len(), 0);
}

#[test]
fn scan_end_of_input_is_none() {
    let mut interner = Interner::new();
    let mut scanner = Scanner::new("x");
    assert!(scanner.scan(&mut interner).unwrap().is_some());
    assert!(scanner.scan(&mut interner).unwrap().is_none());
    assert!(scanner.scan(&mut interner).unwrap().is_none());
}

#[test]
fn kind_repr_table() {
    assert_eq!(Kind::LBrack.repr(), Some("["));
    assert_eq!(Kind::ColonEq.repr(), Some(":="));
    assert_eq!(Kind::RArrow.repr(), Some("->"));
    assert_eq!(Kind::LArrow.repr(), Some("<-"));
    assert_eq!(Kind::Record.repr(), Some("record"));
    assert_eq!(Kind::IntLit.repr(), None);
    assert_eq!(Kind::Ident.repr(), None);
}

#[test]
fn kind_ident_or_kw_classification() {
    assert_eq!(Kind::ident_or_kw("record"), Kind::Record);
    assert_eq!(Kind::ident_or_kw("type"), Kind::Type);
    assert_eq!(Kind::ident_or_kw("u8"), Kind::U8);
    assert_eq!(Kind::ident_or_kw("foo"), Kind::Ident);
    assert_eq!(Kind::ident_or_kw("types"), Kind::Ident);
    assert_eq!(Kind::ident_or_kw(""), Kind::Ident);
}

#[test]
fn token_repr_uses_table_or_lexeme() {
    let (toks, interner) = scan_all("( foo type");
    assert_eq!(toks[0].repr(&interner), "(");
    assert_eq!(toks[1].repr(&interner), "foo");
    assert_eq!(toks[2].repr(&interner), "type");
}

#[test]
fn scan_spans_cover_exact_source_ranges() {
    let src = "type Point := root~Point.";
    let (toks, _) = scan_all(src);
    for tok in &toks {
        let start = tok.span().start();
        let len = tok.span().len();
        assert!(start + len <= src.len());
    }
    assert_eq!(toks[0].span().start(), 0);
    assert_eq!(toks[0].span().len(), 4);
    let dot = toks[toks.len() - 1];
    assert_eq!(dot.kind(), Kind::Dot);
    assert_eq!(dot.span().start(), 24);
    assert_eq!(dot.span().len(), 1);
}
