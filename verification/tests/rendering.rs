use tyfront::ast::TyDef;
use tyfront::interner::Interner;
use tyfront::lexer::{Scanner, TokenStream};
use tyfront::parser::Parse;

fn render_def(src: &str) -> String {
    let mut interner = Interner::new();
    let mut scanner = Scanner::new(src);
    let toks = scanner.stream(&mut interner).expect("scan failed");
    let mut stream = TokenStream::new(toks);
    let def = TyDef::parse(&mut stream).expect("parse failed");
    def.render(&interner)
}

#[test]
fn render_alias_of_path() {
    assert_eq!(
        render_def("type Point := root~Point."),
        "(typedef Point (path root Point))",
    );
}

#[test]
fn render_enum_with_payloads() {
    assert_eq!(
        render_def(
            "type Point := | Circle (A~Point, f64) | Triangle (A~Point, A~B~Point, root~C~Point) | None.",
        ),
        "(typedef Point (enum (variant Circle (path A Point) (path f64)) \
         (variant Triangle (path A Point) (path A B Point) (path root C Point)) \
         (variant None)))",
    );
}

#[test]
fn render_record() {
    assert_eq!(
        render_def("type P := record (x y : f64)."),
        "(typedef P (record (param x (path f64)) (param y (path f64))))",
    );
}

#[test]
fn render_empty_record() {
    assert_eq!(render_def("type P := record."), "(typedef P (record))");
}

#[test]
fn render_array() {
    assert_eq!(
        render_def("type A := [u8; 4]."),
        "(typedef A (array (path u8) 4))",
    );
}

#[test]
fn render_tuple() {
    assert_eq!(
        render_def("type T := (u8, u16)."),
        "(typedef T (tup (path u8) (path u16)))",
    );
}

#[test]
fn render_nested_types() {
    assert_eq!(
        render_def("type N := [(a~b, c); 2]."),
        "(typedef N (array (tup (path a b) (path c)) 2))",
    );
}

#[test]
fn render_is_stable_across_repeats() {
    let src = "type Point := | Circle (A~Point, f64) | None.";
    let first = render_def(src);
    let second = render_def(src);
    assert_eq!(first, second);
}
