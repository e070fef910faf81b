use tyfront::interner::Interner;
use tyfront::span::Span;

#[test]
fn interner_round_trip() {
    let mut interner = Interner::new();
    let sym = interner.insert(String::from("hello"));
    assert_eq!(interner.get(sym), "hello");
    let empty = interner.insert(String::from(""));
    assert_eq!(interner.get(empty), "");
}

#[test]
fn interner_idempotent() {
    let mut interner = Interner::new();
    let first = interner.insert(String::from("point"));
    let second = interner.insert(String::from("point"));
    assert_eq!(first, second);
    assert_eq!(interner.get(first), "point");
}

#[test]
fn interner_distinct_strings_distinct_symbols() {
    let mut interner = Interner::new();
    let a = interner.insert(String::from("alpha"));
    let b = interner.insert(String::from("beta"));
    let c = interner.insert(String::from("alpha"));
    assert_ne!(a, b);
    assert_eq!(a, c);
    assert_eq!(interner.get(a), "alpha");
    assert_eq!(interner.get(b), "beta");
}

#[test]
fn span_combine_covers_both() {
    let a = Span::new(0, 3);
    let b = Span::new(5, 2);
    let c = Span::combine(a, b);
    assert_eq!(c.start(), 0);
    assert_eq!(c.len(), 7);
}

#[test]
fn span_combine_commutative() {
    let a = Span::new(2, 4);
    let b = Span::new(1, 1);
    assert_eq!(Span::combine(a, b), Span::combine(b, a));
    let c = Span::new(10, 0);
    let d = Span::new(3, 20);
    assert_eq!(Span::combine(c, d), Span::combine(d, c));
}

#[test]
fn span_combine_self_is_identity() {
    let a = Span::new(7, 5);
    assert_eq!(Span::combine(a, a), a);
}
