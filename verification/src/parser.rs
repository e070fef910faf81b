//! Recursive-descent parser for type definitions.
//!
//! Each grammar rule has a specification function over the token sequence
//! (`spec_parse_...`) that says exactly which node it builds and where it
//! leaves the stream, and an executable rule (the `Parse` impls) proved to
//! realize it. The grammar is LL(1) over token categories.

use vstd::prelude::*;
use crate::ast::{
    Array, ArrayV, Enum, EnumV, Ident, Param, ParamV, Path, PathV, Record, RecordV, Tuple, TupleV,
    Ty, TyDef, TyDefKind, TyDefKindV, TyDefV, TyKind, TyKindV, TyV, Variant, VariantV, ty_view,
    tys_view, lemma_tys_view,
};
use crate::lexer::{spec_peek, TokenStream};
use crate::span::Span;
use crate::token::{Kind, Token};

verus! {

broadcast use lemma_tys_view;

/// A parse failure: a required token was present but of the wrong category,
/// or the stream ended where a token was required.
#[derive(Clone, Copy, Debug, PartialEq, Eq, Structural)]
pub enum Error {
    UnexpectedToken,
    MissingToken,
}

/// Consuming a token of exactly `kind` at position `i`: the token and the
/// next position, `MissingToken` when the stream is exhausted, and
/// `UnexpectedToken` when a token of another category stands there.
pub open spec fn spec_eat(toks: Seq<Token>, i: int, kind: Kind) -> Result<(Token, int), Error> {
    if !(0 <= i < toks.len()) {
        Err(Error::MissingToken)
    } else if toks[i].kind == kind {
        Ok((toks[i], i + 1))
    } else {
        Err(Error::UnexpectedToken)
    }
}

impl TokenStream {
    /// Consumes a token of exactly `kind`, or reports which way it failed.
    fn eat(&mut self, kind: Kind) -> (r: Result<Token, Error>)
        requires
            old(self).wf(),
        ensures
            final(self).wf(),
            final(self).toks@ == old(self).toks@,
            match spec_eat(old(self).toks@, old(self).pos as int, kind) {
                Ok((t, j)) => r == Ok::<Token, Error>(t) && final(self).pos as int == j,
                Err(e) => r == Err::<Token, Error>(e) && final(self).pos == old(self).pos,
            },
    {
        match self.next_if_is(kind) {
            Some(t) => Ok(t),
            None => {
                if self.pos >= self.toks.len() {
                    Err(Error::MissingToken)
                } else {
                    Err(Error::UnexpectedToken)
                }
            },
        }
    }
}

/// Whether an identifier (or a keyword, accepted as an identifier) stands at
/// position `i`.
pub open spec fn spec_ident_ok(toks: Seq<Token>, i: int) -> bool {
    &&& 0 <= i < toks.len()
    &&& (toks[i].kind == Kind::Ident || toks[i].kind.spec_is_kw())
    &&& toks[i].lexeme is Some
}

/// The name node made from the token at position `i`.
pub open spec fn spec_ident_at(toks: Seq<Token>, i: int) -> Ident {
    Ident { span: toks[i].span, name: toks[i].lexeme->0 }
}

/// Which error a failed name parse reports at position `i`.
pub open spec fn spec_ident_err(toks: Seq<Token>, i: int) -> Error {
    if 0 <= i < toks.len() {
        Error::UnexpectedToken
    } else {
        Error::MissingToken
    }
}

/// Parsing one name at position `i`.
pub open spec fn spec_parse_ident(toks: Seq<Token>, i: int) -> Result<(Ident, int), Error> {
    if spec_ident_ok(toks, i) {
        Ok((spec_ident_at(toks, i), i + 1))
    } else {
        Err(spec_ident_err(toks, i))
    }
}

/// Parsing one or more names separated by `~`, as a path's segments: the
/// list ends, without error, at the first name not followed by `~`.
pub open spec fn spec_parse_segments(toks: Seq<Token>, i: int) -> Result<(Seq<Ident>, int), Error>
    decreases toks.len() - i,
{
    if !spec_ident_ok(toks, i) {
        Err(spec_ident_err(toks, i))
    } else if i + 1 < toks.len() && toks[i + 1].kind == Kind::Tilde {
        match spec_parse_segments(toks, i + 2) {
            Ok((rest, j)) => Ok((seq![spec_ident_at(toks, i)] + rest, j)),
            Err(e) => Err(e),
        }
    } else {
        Ok((seq![spec_ident_at(toks, i)], i + 1))
    }
}

/// Parsing a path: its segments, under a span that runs from the first
/// segment to the last.
pub open spec fn spec_parse_path(toks: Seq<Token>, i: int) -> Result<(PathV, int), Error> {
    match spec_parse_segments(toks, i) {
        Ok((segs, j)) => Ok(
            (
                PathV {
                    span: Span::spec_combine(segs[0].span, segs[segs.len() - 1].span),
                    segments: segs,
                },
                j,
            ),
        ),
        Err(e) => Err(e),
    }
}

/// `r` with `prefix` prepended to its list when it carries one.
pub open spec fn prepend_list<T>(
    prefix: Seq<T>,
    r: Result<(Seq<T>, int), Error>,
) -> Result<(Seq<T>, int), Error> {
    match r {
        Ok((rest, j)) => Ok((prefix + rest, j)),
        Err(e) => Err(e),
    }
}

/// A family of parsing rules: one rule per node type. `spec_parse` says
/// which node the rule builds from the token sequence and where it leaves
/// the stream; `parse` realizes it on the stream, consuming at least one
/// token on success.
pub trait Parse: Sized + DeepView {
    /// The node (as a view) parsed at position `i`, with the position that
    /// follows it, or the error the rule reports there.
    spec fn spec_parse(toks: Seq<Token>, i: int) -> Result<(Self::V, int), Error>;

    fn parse(input: &mut TokenStream) -> (r: Result<Self, Error>)
        requires
            old(input).wf(),
        ensures
            final(input).wf(),
            final(input).toks@ == old(input).toks@,
            old(input).pos <= final(input).pos,
            match r {
                Ok(node) => ({
                    &&& Self::spec_parse(old(input).toks@, old(input).pos as int)
                        == Ok::<(Self::V, int), Error>((node.deep_view(), final(input).pos as int))
                    &&& old(input).pos < final(input).pos
                }),
                Err(e) => Self::spec_parse(old(input).toks@, old(input).pos as int)
                    == Err::<(Self::V, int), Error>(e),
            },
    ;
}

impl Parse for Ident {
    open spec fn spec_parse(toks: Seq<Token>, i: int) -> Result<(Ident, int), Error> {
        spec_parse_ident(toks, i)
    }

    fn parse(input: &mut TokenStream) -> (r: Result<Ident, Error>) {
        if input.pos < input.toks.len() {
            let t = input.toks[input.pos];
            let k = t.kind();
            if k == Kind::Ident || k.is_kw() {
                input.pos = input.pos + 1;
                match t.lexeme() {
                    Some(sym) => Ok(Ident { span: t.span(), name: sym }),
                    None => {
                        proof {
                            assert(false);
                        }
                        Err(Error::UnexpectedToken)
                    },
                }
            } else {
                Err(Error::UnexpectedToken)
            }
        } else {
            Err(Error::MissingToken)
        }
    }
}

/// Parses `~`-separated names, as the separated-list scheme does: parse a
/// name, then keep going exactly when a separator follows.
fn parse_segments(input: &mut TokenStream) -> (r: Result<Vec<Ident>, Error>)
    requires
        old(input).wf(),
    ensures
        final(input).wf(),
        final(input).toks@ == old(input).toks@,
        old(input).pos <= final(input).pos,
        match r {
            Ok(ids) => ({
                &&& spec_parse_segments(old(input).toks@, old(input).pos as int) == Ok::<
                    (Seq<Ident>, int),
                    Error,
                >((ids@, final(input).pos as int))
                &&& old(input).pos < final(input).pos
                &&& ids@.len() >= 1
                &&& forall|j: int| 0 <= j < ids@.len() ==> (#[trigger] ids@[j]).span.wf()
            }),
            Err(e) => spec_parse_segments(old(input).toks@, old(input).pos as int) == Err::<
                (Seq<Ident>, int),
                Error,
            >(e),
        },
{
    let ghost toks = input.toks@;
    let ghost pos0 = input.pos as int;
    let mut segments: Vec<Ident> = Vec::new();
    let mut failure: Option<Error> = None;
    proof {
        assert(prepend_list(segments@, spec_parse_segments(toks, pos0)) == spec_parse_segments(
            toks,
            pos0,
        )) by {
            match spec_parse_segments(toks, pos0) {
                Ok((rest, j)) => {
                    assert(segments@ + rest =~= rest);
                },
                Err(_) => {},
            }
        }
    }
    loop
        invariant_except_break
            input.wf(),
            input.toks@ == toks,
            pos0 <= input.pos as int <= toks.len(),
            segments@.len() == 0 ==> input.pos as int == pos0,
            forall|j: int| 0 <= j < segments@.len() ==> (#[trigger] segments@[j]).span.wf(),
            prepend_list(segments@, spec_parse_segments(toks, input.pos as int))
                == spec_parse_segments(toks, pos0),
            failure is None,
        ensures
            input.wf(),
            input.toks@ == toks,
            pos0 <= input.pos as int <= toks.len(),
            forall|j: int| 0 <= j < segments@.len() ==> (#[trigger] segments@[j]).span.wf(),
            match failure {
                Some(e) => spec_parse_segments(toks, pos0) == Err::<(Seq<Ident>, int), Error>(e),
                None => ({
                    &&& spec_parse_segments(toks, pos0) == Ok::<(Seq<Ident>, int), Error>(
                        (segments@, input.pos as int),
                    )
                    &&& segments@.len() >= 1
                    &&& pos0 < input.pos as int
                }),
            },
        decreases toks.len() - input.pos,
    {
        let ghost posk = input.pos as int;
        let ghost segs0 = segments@;
        match Ident::parse(input) {
            Ok(id) => {
                proof {
                    assert(toks[posk].wf());
                    assert(id.span.wf());
                }
                segments.push(id);
            },
            Err(e) => {
                failure = Some(e);
                break ;
            },
        }
        match input.next_if_is(Kind::Tilde) {
            Some(_) => {
                proof {
                    let id = spec_ident_at(toks, posk);
                    match spec_parse_segments(toks, posk + 2) {
                        Ok((rest, j)) => {
                            assert(segs0 + (seq![id] + rest) =~= segments@ + rest);
                        },
                        Err(_) => {},
                    }
                }
            },
            None => {
                proof {
                    assert(spec_parse_segments(toks, posk) == Ok::<(Seq<Ident>, int), Error>(
                        (seq![spec_ident_at(toks, posk)], posk + 1),
                    ));
                    assert(segs0 + seq![spec_ident_at(toks, posk)] =~= segments@);
                }
                break ;
            },
        }
    }
    match failure {
        Some(e) => Err(e),
        None => Ok(segments),
    }
}

/// Parsing a comma-separated list of types: at least one type, and the list
/// ends, without error, at the first type not followed by a comma.
pub open spec fn spec_parse_ty_list(toks: Seq<Token>, i: int) -> Result<(Seq<TyV>, int), Error>
    decreases toks.len() - i, 3int,
{
    match spec_parse_ty(toks, i) {
        Err(e) => Err(e),
        Ok((v, j)) => {
            if i < j && j < toks.len() && toks[j].kind == Kind::Comma {
                match spec_parse_ty_list(toks, j + 1) {
                    Ok((rest, k)) => Ok((seq![v] + rest, k)),
                    Err(e) => Err(e),
                }
            } else {
                Ok((seq![v], j))
            }
        },
    }
}

/// Parsing a tuple type: `(`, a non-empty comma-separated list of types,
/// `)`; the span runs from the opening to the closing parenthesis.
pub open spec fn spec_parse_tuple(toks: Seq<Token>, i: int) -> Result<(TupleV, int), Error>
    decreases toks.len() - i, 0int,
{
    match spec_eat(toks, i, Kind::LParen) {
        Err(e) => Err(e),
        Ok((lp, j)) => match spec_parse_ty_list(toks, j) {
            Err(e) => Err(e),
            Ok((tys, k)) => match spec_eat(toks, k, Kind::RParen) {
                Err(e) => Err(e),
                Ok((rp, m)) => Ok(
                    (TupleV { span: Span::spec_combine(lp.span, rp.span), types: tys }, m),
                ),
            },
        },
    }
}

/// Parsing an array type: `[` type `;` integer literal `]`; the length stays
/// a raw token, and the span runs from bracket to bracket.
pub open spec fn spec_parse_array(toks: Seq<Token>, i: int) -> Result<(ArrayV, int), Error>
    decreases toks.len() - i, 0int,
{
    match spec_eat(toks, i, Kind::LBrack) {
        Err(e) => Err(e),
        Ok((lb, j)) => match spec_parse_ty(toks, j) {
            Err(e) => Err(e),
            Ok((tyv, k)) => match spec_eat(toks, k, Kind::Semi) {
                Err(e) => Err(e),
                Ok((s, m)) => match spec_eat(toks, m, Kind::IntLit) {
                    Err(e) => Err(e),
                    Ok((lt, n)) => match spec_eat(toks, n, Kind::RBrack) {
                        Err(e) => Err(e),
                        Ok((rb, q)) => Ok(
                            (
                                ArrayV {
                                    span: Span::spec_combine(lb.span, rb.span),
                                    ty: Box::new(tyv),
                                    len: lt,
                                },
                                q,
                            ),
                        ),
                    },
                },
            },
        },
    }
}

/// Parsing a type's shape, decided by one token of lookahead: `(` opens a
/// tuple, `[` opens an array, and anything else is read as a path.
pub open spec fn spec_parse_ty_kind(toks: Seq<Token>, i: int) -> Result<(TyKindV, int), Error>
    decreases toks.len() - i, 1int,
{
    match spec_peek(toks, i) {
        None => Err(Error::MissingToken),
        Some(t) => {
            if t.kind == Kind::LParen {
                match spec_parse_tuple(toks, i) {
                    Ok((tu, j)) => Ok((TyKindV::Tuple(tu), j)),
                    Err(e) => Err(e),
                }
            } else if t.kind == Kind::LBrack {
                match spec_parse_array(toks, i) {
                    Ok((a, j)) => Ok((TyKindV::Array(a), j)),
                    Err(e) => Err(e),
                }
            } else {
                match spec_parse_path(toks, i) {
                    Ok((p, j)) => Ok((TyKindV::Path(p), j)),
                    Err(e) => Err(e),
                }
            }
        },
    }
}

/// The span that a type's shape carries.
pub open spec fn spec_ty_kind_span(k: TyKindV) -> Span {
    match k {
        TyKindV::Path(p) => p.span,
        TyKindV::Tuple(t) => t.span,
        TyKindV::Array(a) => a.span,
    }
}

/// Parsing a type: its shape, under the shape's own span.
pub open spec fn spec_parse_ty(toks: Seq<Token>, i: int) -> Result<(TyV, int), Error>
    decreases toks.len() - i, 2int,
{
    match spec_parse_ty_kind(toks, i) {
        Ok((k, j)) => Ok((TyV { span: spec_ty_kind_span(k), kind: k }, j)),
        Err(e) => Err(e),
    }
}

/// Parsing one variant: a name, then, exactly when a `(` follows, a tuple
/// whose element types become the variant's payload; the span runs from the
/// name over the payload. A variant without payload is distinct from one
/// with an empty payload list only in the source: both carry no types.
pub open spec fn spec_parse_variant(toks: Seq<Token>, i: int) -> Result<(VariantV, int), Error> {
    match spec_parse_ident(toks, i) {
        Err(e) => Err(e),
        Ok((name, j)) => {
            if j < toks.len() && toks[j].kind == Kind::LParen {
                match spec_parse_tuple(toks, j) {
                    Err(e) => Err(e),
                    Ok((tup, k)) => Ok(
                        (
                            VariantV {
                                span: Span::spec_combine(name.span, tup.span),
                                name,
                                data: tup.types,
                            },
                            k,
                        ),
                    ),
                }
            } else {
                Ok(
                    (
                        VariantV {
                            span: Span::spec_combine(name.span, name.span),
                            name,
                            data: Seq::empty(),
                        },
                        j,
                    ),
                )
            }
        },
    }
}

/// Parsing `|`-separated variants: at least one, and the list ends, without
/// error, at the first variant not followed by `|`.
pub open spec fn spec_parse_variant_list(toks: Seq<Token>, i: int) -> Result<
    (Seq<VariantV>, int),
    Error,
>
    decreases toks.len() - i,
{
    match spec_parse_variant(toks, i) {
        Err(e) => Err(e),
        Ok((v, j)) => {
            if i < j && j < toks.len() && toks[j].kind == Kind::Vert {
                match spec_parse_variant_list(toks, j + 1) {
                    Ok((rest, k)) => Ok((seq![v] + rest, k)),
                    Err(e) => Err(e),
                }
            } else {
                Ok((seq![v], j))
            }
        },
    }
}

/// Parsing an enum: a leading `|`, then variants separated by `|`; the span
/// runs from the leading `|` to the last variant.
pub open spec fn spec_parse_enum(toks: Seq<Token>, i: int) -> Result<(EnumV, int), Error> {
    match spec_eat(toks, i, Kind::Vert) {
        Err(e) => Err(e),
        Ok((lv, j)) => match spec_parse_variant_list(toks, j) {
            Err(e) => Err(e),
            Ok((vs, k)) => Ok(
                (
                    EnumV {
                        span: Span::spec_combine(lv.span, vs[vs.len() - 1].span),
                        variants: vs,
                    },
                    k,
                ),
            ),
        },
    }
}

/// The run of consecutive names (keywords included) starting at position
/// `i`, and the position where the run ends; a run never fails.
pub open spec fn spec_parse_ident_run(toks: Seq<Token>, i: int) -> (Seq<Ident>, int)
    decreases toks.len() - i,
{
    if spec_ident_ok(toks, i) {
        let (rest, j) = spec_parse_ident_run(toks, i + 1);
        (seq![spec_ident_at(toks, i)] + rest, j)
    } else {
        (Seq::empty(), i)
    }
}

/// The fields a group expands into: one per collected name, all sharing the
/// group's span and the one annotated type.
pub open spec fn spec_param_seq(ids: Seq<Ident>, span: Span, ty: TyV) -> Seq<ParamV> {
    Seq::new(ids.len(), |x: int| ParamV { span, name: ids[x], ty })
}

/// Parsing one field group: `(`, one or more names, `:`, one type, `)`.
pub open spec fn spec_parse_param_group(toks: Seq<Token>, i: int) -> Result<
    (Seq<ParamV>, int),
    Error,
> {
    match spec_eat(toks, i, Kind::LParen) {
        Err(e) => Err(e),
        Ok((lp, j)) => {
            let (ids, k) = spec_parse_ident_run(toks, j);
            if ids.len() == 0 {
                Err(spec_ident_err(toks, k))
            } else {
                match spec_eat(toks, k, Kind::Colon) {
                    Err(e) => Err(e),
                    Ok((c, m)) => match spec_parse_ty(toks, m) {
                        Err(e) => Err(e),
                        Ok((tyv, n)) => match spec_eat(toks, n, Kind::RParen) {
                            Err(e) => Err(e),
                            Ok((rp, q)) => Ok(
                                (spec_param_seq(ids, Span::spec_combine(lp.span, rp.span), tyv), q),
                            ),
                        },
                    },
                }
            }
        },
    }
}

/// Parsing the field groups of a record body: one group after another, for
/// as long as the next token opens one.
pub open spec fn spec_parse_groups(toks: Seq<Token>, i: int) -> Result<(Seq<ParamV>, int), Error>
    decreases toks.len() - i,
{
    if 0 <= i < toks.len() && toks[i].kind == Kind::LParen {
        match spec_parse_param_group(toks, i) {
            Err(e) => Err(e),
            Ok((ps, j)) => {
                if i < j && j <= toks.len() {
                    match spec_parse_groups(toks, j) {
                        Ok((rest, k)) => Ok((ps + rest, k)),
                        Err(e) => Err(e),
                    }
                } else {
                    // never reached: a parsed group ends past its start (the
                    // executable rule consumes at least one token); the test
                    // only makes the recursion well founded
                    Ok((ps, j))
                }
            },
        }
    } else {
        Ok((Seq::empty(), i))
    }
}

/// Parsing a record: the `record` keyword, then zero or more field groups;
/// the span runs from the keyword to the last field, or covers the keyword
/// alone when there is none.
pub open spec fn spec_parse_record(toks: Seq<Token>, i: int) -> Result<(RecordV, int), Error> {
    match spec_eat(toks, i, Kind::Record) {
        Err(e) => Err(e),
        Ok((rec, j)) => match spec_parse_groups(toks, j) {
            Err(e) => Err(e),
            Ok((fields, k)) => {
                let span = if fields.len() > 0 {
                    Span::spec_combine(rec.span, fields[fields.len() - 1].span)
                } else {
                    rec.span
                };
                Ok((RecordV { span, fields }, k))
            },
        },
    }
}

/// Parsing what a definition defines, by one token of lookahead: the
/// `record` keyword opens a record, `|` opens an enum, and anything else is
/// read as an alias type.
pub open spec fn spec_parse_ty_def_kind(toks: Seq<Token>, i: int) -> Result<
    (TyDefKindV, int),
    Error,
> {
    match spec_peek(toks, i) {
        None => Err(Error::MissingToken),
        Some(t) => {
            if t.kind == Kind::Record {
                match spec_parse_record(toks, i) {
                    Ok((rc, j)) => Ok((TyDefKindV::Record(rc), j)),
                    Err(e) => Err(e),
                }
            } else if t.kind == Kind::Vert {
                match spec_parse_enum(toks, i) {
                    Ok((en, j)) => Ok((TyDefKindV::Enum(en), j)),
                    Err(e) => Err(e),
                }
            } else {
                match spec_parse_ty(toks, i) {
                    Ok((tyv, j)) => Ok((TyDefKindV::Alias(tyv), j)),
                    Err(e) => Err(e),
                }
            }
        },
    }
}

/// Parsing one whole definition: `type`, the defined name, `:=`, the body,
/// `.`; the span runs from the `type` keyword to the closing dot.
pub open spec fn spec_parse_ty_def(toks: Seq<Token>, i: int) -> Result<(TyDefV, int), Error> {
    match spec_eat(toks, i, Kind::Type) {
        Err(e) => Err(e),
        Ok((tk, j)) => match spec_parse_ident(toks, j) {
            Err(e) => Err(e),
            Ok((name, k)) => match spec_eat(toks, k, Kind::ColonEq) {
                Err(e) => Err(e),
                Ok((ce, m)) => match spec_parse_ty_def_kind(toks, m) {
                    Err(e) => Err(e),
                    Ok((kd, n)) => match spec_eat(toks, n, Kind::Dot) {
                        Err(e) => Err(e),
                        Ok((dot, q)) => Ok(
                            (
                                TyDefV {
                                    span: Span::spec_combine(tk.span, dot.span),
                                    name,
                                    ty: kd,
                                },
                                q,
                            ),
                        ),
                    },
                },
            },
        },
    }
}

/// A definition parse attempted where the stream holds no more tokens — in
/// particular, on the empty stream an all-whitespace input leaves — reports
/// `MissingToken`.
pub proof fn lemma_parse_ty_def_exhausted(toks: Seq<Token>, i: int)
    requires
        toks.len() <= i,
    ensures
        spec_parse_ty_def(toks, i) == Err::<(TyDefV, int), Error>(Error::MissingToken),
{
}

/// Well-formedness of every token in a sequence; what `TokenStream::wf` says
/// of the tokens alone.
pub open spec fn toks_wf(toks: Seq<Token>) -> bool {
    forall|k: int| 0 <= k < toks.len() ==> (#[trigger] toks[k]).wf()
}

/// A parsed tuple's span merges two token spans, so it is well formed.
proof fn lemma_tuple_span_wf(toks: Seq<Token>, i: int)
    requires
        toks_wf(toks),
    ensures
        spec_parse_tuple(toks, i) matches Ok((tu, j)) ==> tu.span.wf(),
{
    if let Ok((tu, j)) = spec_parse_tuple(toks, i) {
        let (lp, j1) = spec_eat(toks, i, Kind::LParen)->Ok_0;
        if let Ok((tys, k)) = spec_parse_ty_list(toks, j1) {
            let (rp, m) = spec_eat(toks, k, Kind::RParen)->Ok_0;
            assert(toks[i].wf());
            assert(toks[k].wf());
            Span::lemma_combine_wf(lp.span, rp.span);
        }
    }
}

/// A parsed variant's span merges well-formed spans, so it is well formed.
proof fn lemma_variant_span_wf(toks: Seq<Token>, i: int)
    requires
        toks_wf(toks),
    ensures
        spec_parse_variant(toks, i) matches Ok((v, j)) ==> v.span.wf(),
{
    if let Ok((v, j)) = spec_parse_variant(toks, i) {
        assert(toks[i].wf());
        let name = spec_ident_at(toks, i);
        if i + 1 < toks.len() && toks[i + 1].kind == Kind::LParen {
            lemma_tuple_span_wf(toks, i + 1);
            if let Ok((tu, k)) = spec_parse_tuple(toks, i + 1) {
                Span::lemma_combine_wf(name.span, tu.span);
            }
        } else {
            Span::lemma_combine_wf(name.span, name.span);
        }
    }
}

/// Every variant of a parsed variant list has a well-formed span.
proof fn lemma_variant_list_spans_wf(toks: Seq<Token>, i: int)
    requires
        toks_wf(toks),
    ensures
        spec_parse_variant_list(toks, i) matches Ok((vs, j)) ==> forall|q: int|
            0 <= q < vs.len() ==> (#[trigger] vs[q]).span.wf(),
    decreases toks.len() - i,
{
    lemma_variant_span_wf(toks, i);
    if let Ok((v, j)) = spec_parse_variant(toks, i) {
        if i < j && j < toks.len() && toks[j].kind == Kind::Vert {
            lemma_variant_list_spans_wf(toks, j + 1);
        }
    }
}

/// Every field of a parsed group carries the group's span, which merges two
/// token spans, so it is well formed.
proof fn lemma_param_group_spans_wf(toks: Seq<Token>, i: int)
    requires
        toks_wf(toks),
    ensures
        spec_parse_param_group(toks, i) matches Ok((ps, j)) ==> forall|q: int|
            0 <= q < ps.len() ==> (#[trigger] ps[q]).span.wf(),
{
    if let Ok((ps, j)) = spec_parse_param_group(toks, i) {
        let (lp, j1) = spec_eat(toks, i, Kind::LParen)->Ok_0;
        let (ids, k) = spec_parse_ident_run(toks, j1);
        if ids.len() > 0 {
            if let Ok((c, m)) = spec_eat(toks, k, Kind::Colon) {
                if let Ok((tyv, n)) = spec_parse_ty(toks, m) {
                    if let Ok((rp, q2)) = spec_eat(toks, n, Kind::RParen) {
                        assert(toks[i].wf());
                        assert(toks[n].wf());
                        Span::lemma_combine_wf(lp.span, rp.span);
                    }
                }
            }
        }
    }
}

/// Every field of a parsed group list has a well-formed span.
proof fn lemma_groups_spans_wf(toks: Seq<Token>, i: int)
    requires
        toks_wf(toks),
    ensures
        spec_parse_groups(toks, i) matches Ok((ps, j)) ==> forall|q: int|
            0 <= q < ps.len() ==> (#[trigger] ps[q]).span.wf(),
    decreases toks.len() - i,
{
    if 0 <= i < toks.len() && toks[i].kind == Kind::LParen {
        lemma_param_group_spans_wf(toks, i);
        if let Ok((ps, j)) = spec_parse_param_group(toks, i) {
            if i < j && j <= toks.len() {
                lemma_groups_spans_wf(toks, j);
            }
        }
    }
}

impl Parse for Tuple {
    open spec fn spec_parse(toks: Seq<Token>, i: int) -> Result<(TupleV, int), Error> {
        spec_parse_tuple(toks, i)
    }

    fn parse(input: &mut TokenStream) -> (r: Result<Tuple, Error>)
        decreases old(input).toks@.len() - old(input).pos, 0int,
    {
        let ghost toks = input.toks@;
        let ghost pos0 = input.pos as int;
        let lp = match input.eat(Kind::LParen) {
            Ok(t) => t,
            Err(e) => {
                return Err(e);
            },
        };
        let mut types: Vec<Ty> = Vec::new();
        let mut failure: Option<Error> = None;
        proof {
            assert(prepend_list(tys_view(types@), spec_parse_ty_list(toks, pos0 + 1))
                == spec_parse_ty_list(toks, pos0 + 1)) by {
                match spec_parse_ty_list(toks, pos0 + 1) {
                    Ok((rest, j)) => {
                        assert(tys_view(types@) + rest =~= rest);
                    },
                    Err(_) => {},
                }
            }
        }
        loop
            invariant_except_break
                input.wf(),
                input.toks@ == toks,
                toks == old(input).toks@,
                pos0 == old(input).pos as int,
                pos0 < input.pos as int <= toks.len(),
                prepend_list(tys_view(types@), spec_parse_ty_list(toks, input.pos as int))
                    == spec_parse_ty_list(toks, pos0 + 1),
                failure is None,
            ensures
                input.wf(),
                input.toks@ == toks,
                pos0 < input.pos as int <= toks.len(),
                match failure {
                    Some(e) => spec_parse_ty_list(toks, pos0 + 1) == Err::<(Seq<TyV>, int), Error>(
                        e,
                    ),
                    None => spec_parse_ty_list(toks, pos0 + 1) == Ok::<(Seq<TyV>, int), Error>(
                        (tys_view(types@), input.pos as int),
                    ),
                },
            decreases toks.len() - input.pos,
        {
            let ghost posk = input.pos as int;
            let ghost tys0 = types@;
            let t = match Ty::parse(input) {
                Ok(t) => t,
                Err(e) => {
                    failure = Some(e);
                    break ;
                },
            };
            types.push(t);
            proof {
                assert(tys_view(types@) =~= tys_view(tys0).push(ty_view(t)));
            }
            match input.next_if_is(Kind::Comma) {
                Some(_) => {
                    proof {
                        let v = ty_view(t);
                        match spec_parse_ty_list(toks, input.pos as int) {
                            Ok((rest, j)) => {
                                assert(tys_view(tys0) + (seq![v] + rest) =~= tys_view(types@)
                                    + rest);
                            },
                            Err(_) => {},
                        }
                    }
                },
                None => {
                    proof {
                        let v = ty_view(t);
                        assert(tys_view(tys0) + seq![v] =~= tys_view(types@));
                    }
                    break ;
                },
            }
        }
        if let Some(e) = failure {
            return Err(e);
        }
        let rp = match input.eat(Kind::RParen) {
            Ok(t) => t,
            Err(e) => {
                return Err(e);
            },
        };
        proof {
            assert(toks[pos0].wf());
        }
        let span = Span::combine(lp.span(), rp.span());
        Ok(Tuple { span, types })
    }
}

impl Parse for Array {
    open spec fn spec_parse(toks: Seq<Token>, i: int) -> Result<(ArrayV, int), Error> {
        spec_parse_array(toks, i)
    }

    fn parse(input: &mut TokenStream) -> (r: Result<Array, Error>)
        decreases old(input).toks@.len() - old(input).pos, 0int,
    {
        let ghost toks = input.toks@;
        let ghost pos0 = input.pos as int;
        let lb = match input.eat(Kind::LBrack) {
            Ok(t) => t,
            Err(e) => {
                return Err(e);
            },
        };
        let ty = match Ty::parse(input) {
            Ok(t) => Box::new(t),
            Err(e) => {
                return Err(e);
            },
        };
        match input.eat(Kind::Semi) {
            Ok(_) => {},
            Err(e) => {
                return Err(e);
            },
        }
        let len = match input.eat(Kind::IntLit) {
            Ok(t) => t,
            Err(e) => {
                return Err(e);
            },
        };
        let rb = match input.eat(Kind::RBrack) {
            Ok(t) => t,
            Err(e) => {
                return Err(e);
            },
        };
        proof {
            assert(toks[pos0].wf());
        }
        let span = Span::combine(lb.span(), rb.span());
        Ok(Array { span, ty, len })
    }
}

impl Parse for TyKind {
    open spec fn spec_parse(toks: Seq<Token>, i: int) -> Result<(TyKindV, int), Error> {
        spec_parse_ty_kind(toks, i)
    }

    fn parse(input: &mut TokenStream) -> (r: Result<TyKind, Error>)
        decreases old(input).toks@.len() - old(input).pos, 1int,
    {
        match input.peek() {
            None => Err(Error::MissingToken),
            Some(t) => {
                let k = t.kind();
                if k == Kind::LParen {
                    match Tuple::parse(input) {
                        Ok(tu) => Ok(TyKind::Tuple(tu)),
                        Err(e) => Err(e),
                    }
                } else if k == Kind::LBrack {
                    match Array::parse(input) {
                        Ok(a) => Ok(TyKind::Array(a)),
                        Err(e) => Err(e),
                    }
                } else {
                    match Path::parse(input) {
                        Ok(p) => Ok(TyKind::Path(p)),
                        Err(e) => Err(e),
                    }
                }
            },
        }
    }
}

impl Parse for Ty {
    open spec fn spec_parse(toks: Seq<Token>, i: int) -> Result<(TyV, int), Error> {
        spec_parse_ty(toks, i)
    }

    fn parse(input: &mut TokenStream) -> (r: Result<Ty, Error>)
        decreases old(input).toks@.len() - old(input).pos, 2int,
    {
        let kind = match TyKind::parse(input) {
            Ok(k) => k,
            Err(e) => {
                return Err(e);
            },
        };
        let span = match &kind {
            TyKind::Path(p) => p.span,
            TyKind::Tuple(t) => t.span,
            TyKind::Array(a) => a.span,
        };
        Ok(Ty { span, kind })
    }
}

impl Parse for Path {
    open spec fn spec_parse(toks: Seq<Token>, i: int) -> Result<(PathV, int), Error> {
        spec_parse_path(toks, i)
    }

    fn parse(input: &mut TokenStream) -> (r: Result<Path, Error>) {
        let segments = match parse_segments(input) {
            Ok(ids) => ids,
            Err(e) => {
                return Err(e);
            },
        };
        let span = Span::combine(segments[0].span, segments[segments.len() - 1].span);
        Ok(Path { span, segments })
    }
}

impl Parse for Variant {
    open spec fn spec_parse(toks: Seq<Token>, i: int) -> Result<(VariantV, int), Error> {
        spec_parse_variant(toks, i)
    }

    fn parse(input: &mut TokenStream) -> (r: Result<Variant, Error>) {
        let ghost toks = input.toks@;
        let ghost pos0 = input.pos as int;
        let name = match Ident::parse(input) {
            Ok(id) => id,
            Err(e) => {
                return Err(e);
            },
        };
        proof {
            assert(toks[pos0].wf());
        }
        let open_paren = match input.peek() {
            Some(t) => t.kind() == Kind::LParen,
            None => false,
        };
        if open_paren {
            let tup = match Tuple::parse(input) {
                Ok(t) => t,
                Err(e) => {
                    return Err(e);
                },
            };
            proof {
                assert(toks_wf(toks));
                lemma_tuple_span_wf(toks, pos0 + 1);
            }
            let span = Span::combine(name.span, tup.span);
            Ok(Variant { span, name, data: tup.types })
        } else {
            let span = Span::combine(name.span, name.span);
            Ok(Variant { span, name, data: Vec::new() })
        }
    }
}

impl Parse for Enum {
    open spec fn spec_parse(toks: Seq<Token>, i: int) -> Result<(EnumV, int), Error> {
        spec_parse_enum(toks, i)
    }

    fn parse(input: &mut TokenStream) -> (r: Result<Enum, Error>) {
        let ghost toks = input.toks@;
        let ghost pos0 = input.pos as int;
        let lv = match input.eat(Kind::Vert) {
            Ok(t) => t,
            Err(e) => {
                return Err(e);
            },
        };
        let mut variants: Vec<Variant> = Vec::new();
        let mut failure: Option<Error> = None;
        proof {
            assert(prepend_list(variants.deep_view(), spec_parse_variant_list(toks, pos0 + 1))
                == spec_parse_variant_list(toks, pos0 + 1)) by {
                match spec_parse_variant_list(toks, pos0 + 1) {
                    Ok((rest, j)) => {
                        assert(variants.deep_view() + rest =~= rest);
                    },
                    Err(_) => {},
                }
            }
        }
        loop
            invariant_except_break
                input.wf(),
                input.toks@ == toks,
                pos0 < input.pos as int <= toks.len(),
                prepend_list(variants.deep_view(), spec_parse_variant_list(toks, input.pos as int))
                    == spec_parse_variant_list(toks, pos0 + 1),
                failure is None,
            ensures
                input.wf(),
                input.toks@ == toks,
                pos0 < input.pos as int <= toks.len(),
                match failure {
                    Some(e) => spec_parse_variant_list(toks, pos0 + 1) == Err::<
                        (Seq<VariantV>, int),
                        Error,
                    >(e),
                    None => ({
                        &&& spec_parse_variant_list(toks, pos0 + 1) == Ok::<
                            (Seq<VariantV>, int),
                            Error,
                        >((variants.deep_view(), input.pos as int))
                        &&& variants@.len() >= 1
                    }),
                },
            decreases toks.len() - input.pos,
        {
            let ghost posk = input.pos as int;
            let ghost vs0 = variants.deep_view();
            let v = match Variant::parse(input) {
                Ok(v) => v,
                Err(e) => {
                    failure = Some(e);
                    break ;
                },
            };
            variants.push(v);
            proof {
                assert(variants.deep_view() =~= vs0.push(v.deep_view()));
            }
            match input.next_if_is(Kind::Vert) {
                Some(_) => {
                    proof {
                        let vv = v.deep_view();
                        match spec_parse_variant_list(toks, input.pos as int) {
                            Ok((rest, j)) => {
                                assert(vs0 + (seq![vv] + rest) =~= variants.deep_view() + rest);
                            },
                            Err(_) => {},
                        }
                    }
                },
                None => {
                    proof {
                        let vv = v.deep_view();
                        assert(vs0 + seq![vv] =~= variants.deep_view());
                    }
                    break ;
                },
            }
        }
        if let Some(e) = failure {
            return Err(e);
        }
        proof {
            assert(toks[pos0].wf());
            assert(toks_wf(toks));
            lemma_variant_list_spans_wf(toks, pos0 + 1);
        }
        let span = if variants.len() > 0 {
            Span::combine(lv.span(), variants[variants.len() - 1].span)
        } else {
            lv.span()
        };
        Ok(Enum { span, variants })
    }
}

impl Parse for Vec<Param> {
    open spec fn spec_parse(toks: Seq<Token>, i: int) -> Result<(Seq<ParamV>, int), Error> {
        spec_parse_param_group(toks, i)
    }

    fn parse(input: &mut TokenStream) -> (r: Result<Vec<Param>, Error>) {
        let ghost toks = input.toks@;
        let ghost pos0 = input.pos as int;
        let lp = match input.eat(Kind::LParen) {
            Ok(t) => t,
            Err(e) => {
                return Err(e);
            },
        };
        let mut idents: Vec<Ident> = Vec::new();
        loop
            invariant_except_break
                input.wf(),
                input.toks@ == toks,
                pos0 < input.pos as int <= toks.len(),
                spec_parse_ident_run(toks, pos0 + 1).0 == idents@ + spec_parse_ident_run(
                    toks,
                    input.pos as int,
                ).0,
                spec_parse_ident_run(toks, pos0 + 1).1 == spec_parse_ident_run(
                    toks,
                    input.pos as int,
                ).1,
            ensures
                input.wf(),
                input.toks@ == toks,
                pos0 < input.pos as int <= toks.len(),
                spec_parse_ident_run(toks, pos0 + 1) == (idents@, input.pos as int),
            decreases toks.len() - input.pos,
        {
            proof {
                assert(idents@ + Seq::<Ident>::empty() =~= idents@);
            }
            let identish = if input.pos < input.toks.len() {
                let k = input.toks[input.pos].kind();
                k == Kind::Ident || k.is_kw()
            } else {
                false
            };
            if !identish {
                break ;
            }
            let ghost ids0 = idents@;
            let ghost posk = input.pos as int;
            let id = match Ident::parse(input) {
                Ok(id) => id,
                Err(_) => {
                    proof {
                        assert(toks[posk].wf());
                        assert(false);
                    }
                    break ;
                },
            };
            idents.push(id);
            proof {
                assert(toks[posk].wf());
                let (rest, j) = spec_parse_ident_run(toks, posk + 1);
                assert(ids0 + (seq![spec_ident_at(toks, posk)] + rest) =~= idents@ + rest);
            }
        }
        if idents.len() == 0 {
            if input.pos >= input.toks.len() {
                return Err(Error::MissingToken);
            } else {
                return Err(Error::UnexpectedToken);
            }
        }
        match input.eat(Kind::Colon) {
            Ok(_) => {},
            Err(e) => {
                return Err(e);
            },
        }
        let ty = match Ty::parse(input) {
            Ok(t) => t,
            Err(e) => {
                return Err(e);
            },
        };
        let ghost rp_pos = input.pos as int;
        let rp = match input.eat(Kind::RParen) {
            Ok(t) => t,
            Err(e) => {
                return Err(e);
            },
        };
        proof {
            assert(toks[pos0].wf());
            assert(toks[rp_pos].wf());
        }
        let span = Span::combine(lp.span(), rp.span());
        let mut params: Vec<Param> = Vec::new();
        let mut x: usize = 0;
        while x < idents.len()
            invariant
                0 <= x <= idents@.len(),
                params@.len() == x,
                forall|q: int|
                    0 <= q < x ==> ((#[trigger] params@[q]).span == span && params@[q].name
                        == idents@[q] && ty_view(params@[q].ty) == ty_view(ty)),
            decreases idents@.len() - x,
        {
            params.push(Param { span, name: idents[x], ty: ty.clone() });
            x = x + 1;
        }
        proof {
            assert(params.deep_view() =~= spec_param_seq(idents@, span, ty_view(ty)));
        }
        Ok(params)
    }
}

impl Parse for Record {
    open spec fn spec_parse(toks: Seq<Token>, i: int) -> Result<(RecordV, int), Error> {
        spec_parse_record(toks, i)
    }

    fn parse(input: &mut TokenStream) -> (r: Result<Record, Error>) {
        let ghost toks = input.toks@;
        let ghost pos0 = input.pos as int;
        let rec = match input.eat(Kind::Record) {
            Ok(t) => t,
            Err(e) => {
                return Err(e);
            },
        };
        let mut fields: Vec<Param> = Vec::new();
        let mut failure: Option<Error> = None;
        proof {
            assert(prepend_list(fields.deep_view(), spec_parse_groups(toks, pos0 + 1))
                == spec_parse_groups(toks, pos0 + 1)) by {
                match spec_parse_groups(toks, pos0 + 1) {
                    Ok((rest, j)) => {
                        assert(fields.deep_view() + rest =~= rest);
                    },
                    Err(_) => {},
                }
            }
        }
        loop
            invariant_except_break
                input.wf(),
                input.toks@ == toks,
                pos0 < input.pos as int <= toks.len(),
                prepend_list(fields.deep_view(), spec_parse_groups(toks, input.pos as int))
                    == spec_parse_groups(toks, pos0 + 1),
                failure is None,
            ensures
                input.wf(),
                input.toks@ == toks,
                pos0 < input.pos as int <= toks.len(),
                match failure {
                    Some(e) => spec_parse_groups(toks, pos0 + 1) == Err::<
                        (Seq<ParamV>, int),
                        Error,
                    >(e),
                    None => spec_parse_groups(toks, pos0 + 1) == Ok::<(Seq<ParamV>, int), Error>(
                        (fields.deep_view(), input.pos as int),
                    ),
                },
            decreases toks.len() - input.pos,
        {
            let open_paren = match input.peek() {
                Some(t) => t.kind() == Kind::LParen,
                None => false,
            };
            if !open_paren {
                proof {
                    assert(fields.deep_view() + Seq::<ParamV>::empty() =~= fields.deep_view());
                }
                break ;
            }
            let ghost fs0 = fields.deep_view();
            let mut group = match <Vec<Param>>::parse(input) {
                Ok(ps) => ps,
                Err(e) => {
                    failure = Some(e);
                    break ;
                },
            };
            let ghost gv = group.deep_view();
            fields.append(&mut group);
            proof {
                assert(fields.deep_view() =~= fs0 + gv);
                match spec_parse_groups(toks, input.pos as int) {
                    Ok((rest, j)) => {
                        assert(fs0 + (gv + rest) =~= fields.deep_view() + rest);
                    },
                    Err(_) => {},
                }
            }
        }
        if let Some(e) = failure {
            return Err(e);
        }
        proof {
            assert(toks[pos0].wf());
            assert(toks_wf(toks));
            lemma_groups_spans_wf(toks, pos0 + 1);
        }
        let span = if fields.len() > 0 {
            Span::combine(rec.span(), fields[fields.len() - 1].span)
        } else {
            rec.span()
        };
        Ok(Record { span, fields })
    }
}

impl Parse for TyDefKind {
    open spec fn spec_parse(toks: Seq<Token>, i: int) -> Result<(TyDefKindV, int), Error> {
        spec_parse_ty_def_kind(toks, i)
    }

    fn parse(input: &mut TokenStream) -> (r: Result<TyDefKind, Error>) {
        match input.peek() {
            None => Err(Error::MissingToken),
            Some(t) => {
                let k = t.kind();
                if k == Kind::Record {
                    match Record::parse(input) {
                        Ok(rc) => Ok(TyDefKind::Record(rc)),
                        Err(e) => Err(e),
                    }
                } else if k == Kind::Vert {
                    match Enum::parse(input) {
                        Ok(en) => Ok(TyDefKind::Enum(en)),
                        Err(e) => Err(e),
                    }
                } else {
                    match Ty::parse(input) {
                        Ok(ty) => Ok(TyDefKind::Alias(ty)),
                        Err(e) => Err(e),
                    }
                }
            },
        }
    }
}

impl Parse for TyDef {
    open spec fn spec_parse(toks: Seq<Token>, i: int) -> Result<(TyDefV, int), Error> {
        spec_parse_ty_def(toks, i)
    }

    fn parse(input: &mut TokenStream) -> (r: Result<TyDef, Error>) {
        let ghost toks = input.toks@;
        let ghost pos0 = input.pos as int;
        let tk = match input.eat(Kind::Type) {
            Ok(t) => t,
            Err(e) => {
                return Err(e);
            },
        };
        let name = match Ident::parse(input) {
            Ok(id) => id,
            Err(e) => {
                return Err(e);
            },
        };
        match input.eat(Kind::ColonEq) {
            Ok(_) => {},
            Err(e) => {
                return Err(e);
            },
        }
        let ty = match TyDefKind::parse(input) {
            Ok(kd) => kd,
            Err(e) => {
                return Err(e);
            },
        };
        let ghost dot_pos = input.pos as int;
        let dot = match input.eat(Kind::Dot) {
            Ok(t) => t,
            Err(e) => {
                return Err(e);
            },
        };
        proof {
            assert(toks[pos0].wf());
            assert(toks[dot_pos].wf());
        }
        let span = Span::combine(tk.span(), dot.span());
        Ok(TyDef { span, name, ty })
    }
}

} // verus!
