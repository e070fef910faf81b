//! Syntax-tree node types for type definitions, and their
//! specification-level views.
//!
//! Every node owns a span that covers exactly the tokens it was built from.
//! The view of a node (`deep_view`) replaces each vector by a sequence, so
//! that contracts can speak of nodes as plain mathematical values.

use vstd::prelude::*;
use crate::interner::Symbol;
use crate::span::Span;
use crate::token::Token;

verus! {

/// A single name, as written in the source.
#[derive(Clone, Copy, Debug)]
pub struct Ident {
    pub span: Span,
    pub name: Symbol,
}

impl Ident {
    pub fn new(span: Span, name: Symbol) -> (r: Ident)
        ensures
            r == (Ident { span, name }),
    {
        Ident { span, name }
    }
}

impl DeepView for Ident {
    type V = Ident;

    open spec fn deep_view(&self) -> Ident {
        *self
    }
}

/// A tilde-separated qualified name: one or more segments.
#[derive(Clone, Debug)]
pub struct Path {
    pub span: Span,
    pub segments: Vec<Ident>,
}

/// The view of a `Path`.
#[verifier::ext_equal]
pub ghost struct PathV {
    pub span: Span,
    pub segments: Seq<Ident>,
}

impl Path {
    pub fn new(span: Span, segments: Vec<Ident>) -> (r: Path)
        ensures
            r == (Path { span, segments }),
    {
        Path { span, segments }
    }
}

impl DeepView for Path {
    type V = PathV;

    open spec fn deep_view(&self) -> PathV {
        PathV { span: self.span, segments: self.segments@ }
    }
}

/// A parenthesized, comma-separated list of types.
#[derive(Clone, Debug)]
pub struct Tuple {
    pub span: Span,
    pub types: Vec<Ty>,
}

/// The view of a `Tuple`.
#[verifier::ext_equal]
pub ghost struct TupleV {
    pub span: Span,
    pub types: Seq<TyV>,
}

impl Tuple {
    pub fn new(span: Span, types: Vec<Ty>) -> (r: Tuple)
        ensures
            r == (Tuple { span, types }),
    {
        Tuple { span, types }
    }
}

impl DeepView for Tuple {
    type V = TupleV;

    open spec fn deep_view(&self) -> TupleV {
        TupleV { span: self.span, types: tys_view(self.types@) }
    }
}

/// A fixed-size array type: an element type and a length token. The length
/// is kept as the raw literal token, not evaluated at this layer.
#[derive(Clone, Debug)]
pub struct Array {
    pub span: Span,
    pub ty: Box<Ty>,
    pub len: Token,
}

/// The view of an `Array`.
#[verifier::ext_equal]
pub ghost struct ArrayV {
    pub span: Span,
    pub ty: Box<TyV>,
    pub len: Token,
}

impl Array {
    pub fn new(span: Span, ty: Box<Ty>, len: Token) -> (r: Array)
        ensures
            r == (Array { span, ty, len }),
    {
        Array { span, ty, len }
    }
}

impl DeepView for Array {
    type V = ArrayV;

    open spec fn deep_view(&self) -> ArrayV {
        ArrayV { span: self.span, ty: Box::new(ty_view(*self.ty)), len: self.len }
    }
}

/// The shape of a type: a path reference, a tuple, or an array.
#[derive(Clone, Debug)]
pub enum TyKind {
    Path(Path),
    Tuple(Tuple),
    Array(Array),
}

/// The view of a `TyKind`.
#[verifier::ext_equal]
pub ghost enum TyKindV {
    Path(PathV),
    Tuple(TupleV),
    Array(ArrayV),
}

impl DeepView for TyKind {
    type V = TyKindV;

    open spec fn deep_view(&self) -> TyKindV {
        ty_kind_view(*self)
    }
}

/// A type with the span it covers.
#[derive(Debug)]
pub struct Ty {
    pub span: Span,
    pub kind: TyKind,
}

/// The view of a `Ty`.
#[verifier::ext_equal]
pub ghost struct TyV {
    pub span: Span,
    pub kind: TyKindV,
}

impl Ty {
    pub fn new(span: Span, kind: TyKind) -> (r: Ty)
        ensures
            r == (Ty { span, kind }),
    {
        Ty { span, kind }
    }
}

impl DeepView for Ty {
    type V = TyV;

    open spec fn deep_view(&self) -> TyV {
        ty_view(*self)
    }
}

/// The view of a type.
pub open spec fn ty_view(t: Ty) -> TyV
    decreases t,
{
    TyV { span: t.span, kind: ty_kind_view_at(t.kind) }
}

/// The view of a type's shape; a helper of `ty_view` that keeps the
/// recursion in one place.
pub open spec fn ty_kind_view_at(k: TyKind) -> TyKindV
    decreases k,
{
    match k {
        TyKind::Path(p) => TyKindV::Path(PathV { span: p.span, segments: p.segments@ }),
        TyKind::Tuple(tu) => TyKindV::Tuple(TupleV { span: tu.span, types: tys_view(tu.types@) }),
        TyKind::Array(a) => TyKindV::Array(
            ArrayV { span: a.span, ty: Box::new(ty_view(*a.ty)), len: a.len },
        ),
    }
}

/// The view of a type's shape.
pub open spec fn ty_kind_view(k: TyKind) -> TyKindV {
    ty_kind_view_at(k)
}

/// The views of a sequence of types, element by element.
pub open spec fn tys_view(s: Seq<Ty>) -> Seq<TyV>
    decreases s,
{
    if s.len() == 0 {
        Seq::empty()
    } else {
        seq![ty_view(s[0])] + tys_view(s.drop_first())
    }
}

/// `tys_view` maps element by element.
pub broadcast proof fn lemma_tys_view(s: Seq<Ty>)
    ensures
        (#[trigger] tys_view(s)).len() == s.len(),
        forall|i: int| 0 <= i < s.len() ==> tys_view(s)[i] == ty_view(s[i]),
    decreases s.len(),
{
    if s.len() > 0 {
        lemma_tys_view(s.drop_first());
    }
}

/// One case of a sum type: a name and its payload types (possibly none).
#[derive(Clone, Debug)]
pub struct Variant {
    pub span: Span,
    pub name: Ident,
    pub data: Vec<Ty>,
}

/// The view of a `Variant`.
#[verifier::ext_equal]
pub ghost struct VariantV {
    pub span: Span,
    pub name: Ident,
    pub data: Seq<TyV>,
}

impl Variant {
    pub fn new(span: Span, name: Ident, data: Vec<Ty>) -> (r: Variant)
        ensures
            r == (Variant { span, name, data }),
    {
        Variant { span, name, data }
    }
}

impl DeepView for Variant {
    type V = VariantV;

    open spec fn deep_view(&self) -> VariantV {
        VariantV { span: self.span, name: self.name, data: tys_view(self.data@) }
    }
}

/// A sum type: a non-empty ordered list of variants.
#[derive(Clone, Debug)]
pub struct Enum {
    pub span: Span,
    pub variants: Vec<Variant>,
}

/// The view of an `Enum`.
#[verifier::ext_equal]
pub ghost struct EnumV {
    pub span: Span,
    pub variants: Seq<VariantV>,
}

impl Enum {
    pub fn new(span: Span, variants: Vec<Variant>) -> (r: Enum)
        ensures
            r == (Enum { span, variants }),
    {
        Enum { span, variants }
    }
}

impl DeepView for Enum {
    type V = EnumV;

    open spec fn deep_view(&self) -> EnumV {
        EnumV { span: self.span, variants: self.variants.deep_view() }
    }
}

/// One named field of a record. Several params may share one textual type
/// annotation; each then carries the whole group's span and its own copy of
/// the type.
#[derive(Clone, Debug)]
pub struct Param {
    pub span: Span,
    pub name: Ident,
    pub ty: Ty,
}

/// The view of a `Param`.
#[verifier::ext_equal]
pub ghost struct ParamV {
    pub span: Span,
    pub name: Ident,
    pub ty: TyV,
}

impl Param {
    pub fn new(span: Span, name: Ident, ty: Ty) -> (r: Param)
        ensures
            r == (Param { span, name, ty }),
    {
        Param { span, name, ty }
    }
}

impl DeepView for Param {
    type V = ParamV;

    open spec fn deep_view(&self) -> ParamV {
        ParamV { span: self.span, name: self.name, ty: ty_view(self.ty) }
    }
}

/// A product type: an ordered list of fields, possibly empty.
#[derive(Clone, Debug)]
pub struct Record {
    pub span: Span,
    pub fields: Vec<Param>,
}

/// The view of a `Record`.
#[verifier::ext_equal]
pub ghost struct RecordV {
    pub span: Span,
    pub fields: Seq<ParamV>,
}

impl Record {
    pub fn new(span: Span, fields: Vec<Param>) -> (r: Record)
        ensures
            r == (Record { span, fields }),
    {
        Record { span, fields }
    }
}

impl DeepView for Record {
    type V = RecordV;

    open spec fn deep_view(&self) -> RecordV {
        RecordV { span: self.span, fields: self.fields.deep_view() }
    }
}

/// What a type definition defines: an alias, a record, or an enum.
#[derive(Clone, Debug)]
pub enum TyDefKind {
    Alias(Ty),
    Record(Record),
    Enum(Enum),
}

/// The view of a `TyDefKind`.
#[verifier::ext_equal]
pub ghost enum TyDefKindV {
    Alias(TyV),
    Record(RecordV),
    Enum(EnumV),
}

impl DeepView for TyDefKind {
    type V = TyDefKindV;

    open spec fn deep_view(&self) -> TyDefKindV {
        match *self {
            TyDefKind::Alias(t) => TyDefKindV::Alias(ty_view(t)),
            TyDefKind::Record(r) => TyDefKindV::Record(r.deep_view()),
            TyDefKind::Enum(e) => TyDefKindV::Enum(e.deep_view()),
        }
    }
}

/// One whole `type NAME := KIND .` statement.
#[derive(Clone, Debug)]
pub struct TyDef {
    pub span: Span,
    pub name: Ident,
    pub ty: TyDefKind,
}

/// The view of a `TyDef`.
#[verifier::ext_equal]
pub ghost struct TyDefV {
    pub span: Span,
    pub name: Ident,
    pub ty: TyDefKindV,
}

impl TyDef {
    pub fn new(span: Span, name: Ident, ty: TyDefKind) -> (r: TyDef)
        ensures
            r == (TyDef { span, name, ty }),
    {
        TyDef { span, name, ty }
    }
}

impl DeepView for TyDef {
    type V = TyDefV;

    open spec fn deep_view(&self) -> TyDefV {
        TyDefV { span: self.span, name: self.name, ty: self.ty.deep_view() }
    }
}

/// Deep copy of a type; the copy has the same view as the original.
fn clone_ty(t: &Ty) -> (r: Ty)
    ensures
        ty_view(r) == ty_view(*t),
    decreases *t,
{
    Ty { span: t.span, kind: clone_ty_kind(&t.kind) }
}

fn clone_ty_kind(k: &TyKind) -> (r: TyKind)
    ensures
        ty_kind_view_at(r) == ty_kind_view_at(*k),
    decreases *k,
{
    match k {
        TyKind::Path(p) => {
            let mut segments: Vec<Ident> = Vec::new();
            let mut i: usize = 0;
            while i < p.segments.len()
                invariant
                    0 <= i <= p.segments@.len(),
                    segments@ == p.segments@.subrange(0, i as int),
                decreases p.segments@.len() - i,
            {
                segments.push(p.segments[i]);
                proof {
                    assert(segments@ =~= p.segments@.subrange(0, i + 1));
                }
                i = i + 1;
            }
            proof {
                assert(segments@ =~= p.segments@);
            }
            TyKind::Path(Path { span: p.span, segments })
        },
        TyKind::Tuple(tu) => {
            proof {
                assert(decreases_to!(*k => tu.types@));
            }
            let types = clone_tys(&tu.types);
            proof {
                broadcast use lemma_tys_view;

                assert(tys_view(types@) =~= tys_view(tu.types@));
            }
            TyKind::Tuple(Tuple { span: tu.span, types })
        },
        TyKind::Array(a) => {
            let ty = Box::new(clone_ty(&a.ty));
            TyKind::Array(Array { span: a.span, ty, len: a.len })
        },
    }
}

/// Deep copy of a vector of types, element by element.
fn clone_tys(v: &Vec<Ty>) -> (r: Vec<Ty>)
    ensures
        r@.len() == v@.len(),
        forall|i: int| 0 <= i < v@.len() ==> ty_view(#[trigger] r@[i]) == ty_view(v@[i]),
    decreases v@,
{
    let mut types: Vec<Ty> = Vec::new();
    let mut i: usize = 0;
    while i < v.len()
        invariant
            0 <= i <= v@.len(),
            types@.len() == i,
            forall|j: int| 0 <= j < i ==> ty_view(#[trigger] types@[j]) == ty_view(v@[j]),
        decreases v@.len() - i,
    {
        proof {
            assert(decreases_to!(v@ => v@[i as int]));
        }
        types.push(clone_ty(&v[i]));
        i = i + 1;
    }
    types
}

impl Clone for Ty {
    /// The copy carries the same structure: its view equals the original's.
    fn clone(&self) -> (r: Ty)
        ensures
            ty_view(r) == ty_view(*self),
    {
        clone_ty(self)
    }
}

} // verus!
