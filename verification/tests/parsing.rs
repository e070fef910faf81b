use tyfront::ast::{TyDef, TyDefKind, TyKind};
use tyfront::interner::Interner;
use tyfront::token::Kind;
use tyfront::lexer::{Scanner, TokenStream};
use tyfront::parser::{Error, Parse};

fn parse_def(src: &str) -> (Result<TyDef, Error>, Interner) {
    let mut interner = Interner::new();
    let mut scanner = Scanner::new(src);
    let toks = scanner.stream(&mut interner).expect("scan failed");
    let mut stream = TokenStream::new(toks);
    (TyDef::parse(&mut stream), interner)
}

#[test]
fn parse_alias_of_path() {
    let src = "type Point := root~Point.";
    let (res, interner) = parse_def(src);
    let def = res.expect("parse failed");
    assert_eq!(interner.get(def.name.name), "Point");
    assert_eq!(def.span.start(), 0);
    assert_eq!(def.span.len(), src.len());
    match &def.ty {
        TyDefKind::Alias(ty) => match &ty.kind {
            TyKind::Path(p) => {
                assert_eq!(p.segments.len(), 2);
                assert_eq!(interner.get(p.segments[0].name), "root");
                assert_eq!(interner.get(p.segments[1].name), "Point");
            },
            other => panic!("expected a path, got {:?}", other),
        },
        other => panic!("expected an alias, got {:?}", other),
    }
}

#[test]
fn parse_enum_with_payloads() {
    let src = "type Point := | Circle (A~Point, f64) | Triangle (A~Point, A~B~Point, root~C~Point) | None.";
    let (res, interner) = parse_def(src);
    let def = res.expect("parse failed");
    assert_eq!(interner.get(def.name.name), "Point");
    match &def.ty {
        TyDefKind::Enum(en) => {
            assert_eq!(en.variants.len(), 3);
            assert_eq!(interner.get(en.variants[0].name.name), "Circle");
            assert_eq!(en.variants[0].data.len(), 2);
            for ty in &en.variants[0].data {
                assert!(matches!(ty.kind, TyKind::Path(_)));
            }
            assert_eq!(interner.get(en.variants[1].name.name), "Triangle");
            assert_eq!(en.variants[1].data.len(), 3);
            assert_eq!(interner.get(en.variants[2].name.name), "None");
            assert_eq!(en.variants[2].data.len(), 0);
        },
        other => panic!("expected an enum, got {:?}", other),
    }
}

#[test]
fn parse_record_shares_type_across_names() {
    let src = "type P := record (x y : f64).";
    let (res, interner) = parse_def(src);
    let def = res.expect("parse failed");
    match &def.ty {
        TyDefKind::Record(rc) => {
            assert_eq!(rc.fields.len(), 2);
            assert_eq!(interner.get(rc.fields[0].name.name), "x");
            assert_eq!(interner.get(rc.fields[1].name.name), "y");
            // both fields share the group's span and the one annotation
            assert_eq!(rc.fields[0].span, rc.fields[1].span);
            for field in &rc.fields {
                match &field.ty.kind {
                    TyKind::Path(p) => {
                        assert_eq!(interner.get(p.segments[0].name), "f64");
                    },
                    other => panic!("expected a path, got {:?}", other),
                }
            }
        },
        other => panic!("expected a record, got {:?}", other),
    }
}

#[test]
fn parse_record_with_no_fields() {
    let src = "type P := record.";
    let (res, _) = parse_def(src);
    let def = res.expect("parse failed");
    match &def.ty {
        TyDefKind::Record(rc) => assert_eq!(rc.fields.len(), 0),
        other => panic!("expected a record, got {:?}", other),
    }
}

#[test]
fn parse_array_keeps_length_token() {
    let src = "type A := [u8; 4].";
    let (res, interner) = parse_def(src);
    let def = res.expect("parse failed");
    match &def.ty {
        TyDefKind::Alias(ty) => match &ty.kind {
            TyKind::Array(arr) => {
                assert_eq!(interner.get(arr.len.lexeme().unwrap()), "4");
                match &arr.ty.kind {
                    TyKind::Path(p) => assert_eq!(interner.get(p.segments[0].name), "u8"),
                    other => panic!("expected a path, got {:?}", other),
                }
            },
            other => panic!("expected an array, got {:?}", other),
        },
        other => panic!("expected an alias, got {:?}", other),
    }
}

#[test]
fn parse_tuple_type() {
    let src = "type T := (u8, u16).";
    let (res, interner) = parse_def(src);
    let def = res.expect("parse failed");
    match &def.ty {
        TyDefKind::Alias(ty) => match &ty.kind {
            TyKind::Tuple(tu) => {
                assert_eq!(tu.types.len(), 2);
                match &tu.types[1].kind {
                    TyKind::Path(p) => assert_eq!(interner.get(p.segments[0].name), "u16"),
                    other => panic!("expected a path, got {:?}", other),
                }
            },
            other => panic!("expected a tuple, got {:?}", other),
        },
        other => panic!("expected an alias, got {:?}", other),
    }
}

#[test]
fn parse_keyword_accepted_as_name() {
    let src = "type loop := u8.";
    let (res, interner) = parse_def(src);
    let def = res.expect("parse failed");
    assert_eq!(interner.get(def.name.name), "loop");
}

#[test]
fn parse_whitespace_only_is_missing_token() {
    let (res, _) = parse_def("   \n\t ");
    assert_eq!(res.unwrap_err(), Error::MissingToken);
}

#[test]
fn parse_truncated_input_is_missing_token() {
    let (res, _) = parse_def("type Point :=");
    assert_eq!(res.unwrap_err(), Error::MissingToken);
}

#[test]
fn parse_wrong_token_is_unexpected() {
    let (res, _) = parse_def("type Point = u8.");
    assert_eq!(res.unwrap_err(), Error::UnexpectedToken);
}

#[test]
fn parse_missing_trailing_dot() {
    let (res, _) = parse_def("type Point := u8");
    assert_eq!(res.unwrap_err(), Error::MissingToken);
}

#[test]
fn parse_empty_tuple_is_rejected() {
    // the type list inside parentheses needs at least one type
    let (res, _) = parse_def("type T := ().");
    assert_eq!(res.unwrap_err(), Error::UnexpectedToken);
}

#[test]
fn parse_group_without_names_is_rejected() {
    let (res, _) = parse_def("type P := record (: f64).");
    assert_eq!(res.unwrap_err(), Error::UnexpectedToken);
}

#[test]
fn parse_enum_span_covers_statement() {
    let src = "type E := | A | B.";
    let (res, _) = parse_def(src);
    let def = res.expect("parse failed");
    assert_eq!(def.span.start(), 0);
    assert_eq!(def.span.len(), src.len());
}

#[test]
fn stream_peek_and_conditional_consume() {
    let mut interner = Interner::new();
    let mut scanner = Scanner::new("type x");
    let toks = scanner.stream(&mut interner).expect("scan failed");
    let mut stream = TokenStream::new(toks);
    assert_eq!(stream.peek().unwrap().kind(), Kind::Type);
    // predicate fails: nothing is consumed
    assert!(stream.next_if(|k| k == Kind::Ident).is_none());
    assert_eq!(stream.peek().unwrap().kind(), Kind::Type);
    // predicate holds: the token is consumed
    assert_eq!(stream.next_if(|k| k == Kind::Type).unwrap().kind(), Kind::Type);
    assert!(stream.next_if_is(Kind::Ident).is_some());
    assert!(stream.peek().is_none());
    assert!(stream.next_if_is(Kind::Ident).is_none());
}
