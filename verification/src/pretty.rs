//! Canonical S-expression rendering of syntax trees, for diagnostics and
//! tests: each node is grouped under a tag word, `(typedef NAME KIND)`,
//! `(record FIELD...)`, `(param NAME TYPE)`, `(enum VARIANT...)`,
//! `(variant NAME TYPE...)`, `(tup TYPE...)`, `(array TYPE LEN)`,
//! `(path SEG...)`. This textual form is a stable contract: the spec
//! functions here pin the exact text, character by character.

use vstd::prelude::*;
use vstd::string::StringExecFns;
use crate::ast::{
    Array, ArrayV, Enum, EnumV, Ident, Param, ParamV, Path, PathV, Record, RecordV, Tuple, TupleV,
    Ty, TyDef, TyDefKind, TyDefKindV, TyDefV, TyKind, TyKindV, TyV, Variant, VariantV, ty_view,
    tys_view, lemma_tys_view,
};
use crate::interner::Interner;

verus! {

broadcast use lemma_tys_view;

/// Whether a name's symbol is one the table has issued.
pub open spec fn ident_resolves(id: Ident, tab: Seq<Seq<char>>) -> bool {
    id.name.0 < tab.len()
}

/// Whether every name in a segment list resolves against the table.
pub open spec fn segs_resolve(s: Seq<Ident>, tab: Seq<Seq<char>>) -> bool
    decreases s.len(),
{
    if s.len() == 0 {
        true
    } else {
        ident_resolves(s[0], tab) && segs_resolve(s.drop_first(), tab)
    }
}

/// Whether every symbol a path holds is one the table has issued.
pub open spec fn path_resolves(p: PathV, tab: Seq<Seq<char>>) -> bool {
    segs_resolve(p.segments, tab)
}

/// Whether every symbol a type's shape holds is one the table has issued; an
/// array's length token must carry a lexeme.
pub open spec fn ty_kind_resolves(k: TyKindV, tab: Seq<Seq<char>>) -> bool
    decreases k,
{
    match k {
        TyKindV::Path(p) => path_resolves(p, tab),
        TyKindV::Tuple(tu) => tys_resolve(tu.types, tab),
        TyKindV::Array(a) => ty_resolves(*a.ty, tab) && (a.len.lexeme matches Some(sym) && sym.0
            < tab.len()),
    }
}

/// Whether every symbol a type holds is one the table has issued.
pub open spec fn ty_resolves(t: TyV, tab: Seq<Seq<char>>) -> bool
    decreases t,
{
    ty_kind_resolves(t.kind, tab)
}

pub open spec fn tys_resolve(s: Seq<TyV>, tab: Seq<Seq<char>>) -> bool
    decreases s,
{
    if s.len() == 0 {
        true
    } else {
        ty_resolves(s[0], tab) && tys_resolve(s.drop_first(), tab)
    }
}

pub open spec fn variant_resolves(v: VariantV, tab: Seq<Seq<char>>) -> bool {
    ident_resolves(v.name, tab) && tys_resolve(v.data, tab)
}

pub open spec fn variants_resolve(s: Seq<VariantV>, tab: Seq<Seq<char>>) -> bool
    decreases s,
{
    if s.len() == 0 {
        true
    } else {
        variant_resolves(s[0], tab) && variants_resolve(s.drop_first(), tab)
    }
}

pub open spec fn enum_resolves(e: EnumV, tab: Seq<Seq<char>>) -> bool {
    variants_resolve(e.variants, tab)
}

pub open spec fn param_resolves(p: ParamV, tab: Seq<Seq<char>>) -> bool {
    ident_resolves(p.name, tab) && ty_resolves(p.ty, tab)
}

pub open spec fn params_resolve(s: Seq<ParamV>, tab: Seq<Seq<char>>) -> bool
    decreases s,
{
    if s.len() == 0 {
        true
    } else {
        param_resolves(s[0], tab) && params_resolve(s.drop_first(), tab)
    }
}

pub open spec fn record_resolves(r: RecordV, tab: Seq<Seq<char>>) -> bool {
    params_resolve(r.fields, tab)
}

pub open spec fn ty_def_kind_resolves(k: TyDefKindV, tab: Seq<Seq<char>>) -> bool {
    match k {
        TyDefKindV::Alias(t) => ty_resolves(t, tab),
        TyDefKindV::Record(r) => record_resolves(r, tab),
        TyDefKindV::Enum(e) => enum_resolves(e, tab),
    }
}

pub open spec fn ty_def_resolves(d: TyDefV, tab: Seq<Seq<char>>) -> bool {
    ident_resolves(d.name, tab) && ty_def_kind_resolves(d.ty, tab)
}

/// A name renders as its interned text.
pub open spec fn spec_render_ident(id: Ident, tab: Seq<Seq<char>>) -> Seq<char> {
    tab[id.name.0 as int]
}

/// Path segments render space-separated, one space before each.
pub open spec fn spec_render_segs(s: Seq<Ident>, tab: Seq<Seq<char>>) -> Seq<char>
    decreases s.len(),
{
    if s.len() == 0 {
        Seq::empty()
    } else {
        " "@ + spec_render_ident(s[0], tab) + spec_render_segs(s.drop_first(), tab)
    }
}

pub open spec fn spec_render_path(p: PathV, tab: Seq<Seq<char>>) -> Seq<char> {
    "(path"@ + spec_render_segs(p.segments, tab) + ")"@
}

/// A type's shape renders under its tag word; a bare type renders as its
/// shape does.
pub open spec fn spec_render_ty_kind(k: TyKindV, tab: Seq<Seq<char>>) -> Seq<char>
    decreases k,
{
    match k {
        TyKindV::Path(p) => spec_render_path(p, tab),
        TyKindV::Tuple(tu) => "(tup"@ + spec_render_tys(tu.types, tab) + ")"@,
        TyKindV::Array(a) => "(array "@ + spec_render_ty(*a.ty, tab) + " "@ + tab[(a.len.lexeme->0).0
            as int] + ")"@,
    }
}

pub open spec fn spec_render_ty(t: TyV, tab: Seq<Seq<char>>) -> Seq<char>
    decreases t,
{
    spec_render_ty_kind(t.kind, tab)
}

/// Types in a list render space-separated, one space before each.
pub open spec fn spec_render_tys(s: Seq<TyV>, tab: Seq<Seq<char>>) -> Seq<char>
    decreases s,
{
    if s.len() == 0 {
        Seq::empty()
    } else {
        " "@ + spec_render_ty(s[0], tab) + spec_render_tys(s.drop_first(), tab)
    }
}

pub open spec fn spec_render_variant(v: VariantV, tab: Seq<Seq<char>>) -> Seq<char> {
    "(variant "@ + spec_render_ident(v.name, tab) + spec_render_tys(v.data, tab) + ")"@
}

pub open spec fn spec_render_variants(s: Seq<VariantV>, tab: Seq<Seq<char>>) -> Seq<char>
    decreases s.len(),
{
    if s.len() == 0 {
        Seq::empty()
    } else {
        " "@ + spec_render_variant(s[0], tab) + spec_render_variants(s.drop_first(), tab)
    }
}

pub open spec fn spec_render_enum(e: EnumV, tab: Seq<Seq<char>>) -> Seq<char> {
    "(enum"@ + spec_render_variants(e.variants, tab) + ")"@
}

pub open spec fn spec_render_param(p: ParamV, tab: Seq<Seq<char>>) -> Seq<char> {
    "(param "@ + spec_render_ident(p.name, tab) + " "@ + spec_render_ty(p.ty, tab) + ")"@
}

pub open spec fn spec_render_params(s: Seq<ParamV>, tab: Seq<Seq<char>>) -> Seq<char>
    decreases s.len(),
{
    if s.len() == 0 {
        Seq::empty()
    } else {
        " "@ + spec_render_param(s[0], tab) + spec_render_params(s.drop_first(), tab)
    }
}

pub open spec fn spec_render_record(r: RecordV, tab: Seq<Seq<char>>) -> Seq<char> {
    "(record"@ + spec_render_params(r.fields, tab) + ")"@
}

pub open spec fn spec_render_ty_def_kind(k: TyDefKindV, tab: Seq<Seq<char>>) -> Seq<char> {
    match k {
        TyDefKindV::Alias(t) => spec_render_ty(t, tab),
        TyDefKindV::Record(r) => spec_render_record(r, tab),
        TyDefKindV::Enum(e) => spec_render_enum(e, tab),
    }
}

pub open spec fn spec_render_ty_def(d: TyDefV, tab: Seq<Seq<char>>) -> Seq<char> {
    "(typedef "@ + spec_render_ident(d.name, tab) + " "@ + spec_render_ty_def_kind(d.ty, tab)
        + ")"@
}

proof fn lemma_segs_resolve_index(s: Seq<Ident>, tab: Seq<Seq<char>>, i: int)
    requires
        segs_resolve(s, tab),
        0 <= i < s.len(),
    ensures
        ident_resolves(s[i], tab),
    decreases i,
{
    if i > 0 {
        lemma_segs_resolve_index(s.drop_first(), tab, i - 1);
    }
}

proof fn lemma_tys_resolve_index(s: Seq<TyV>, tab: Seq<Seq<char>>, i: int)
    requires
        tys_resolve(s, tab),
        0 <= i < s.len(),
    ensures
        ty_resolves(s[i], tab),
    decreases i,
{
    if i > 0 {
        lemma_tys_resolve_index(s.drop_first(), tab, i - 1);
    }
}

proof fn lemma_variants_resolve_index(s: Seq<VariantV>, tab: Seq<Seq<char>>, i: int)
    requires
        variants_resolve(s, tab),
        0 <= i < s.len(),
    ensures
        variant_resolves(s[i], tab),
    decreases i,
{
    if i > 0 {
        lemma_variants_resolve_index(s.drop_first(), tab, i - 1);
    }
}

proof fn lemma_params_resolve_index(s: Seq<ParamV>, tab: Seq<Seq<char>>, i: int)
    requires
        params_resolve(s, tab),
        0 <= i < s.len(),
    ensures
        param_resolves(s[i], tab),
    decreases i,
{
    if i > 0 {
        lemma_params_resolve_index(s.drop_first(), tab, i - 1);
    }
}

impl Ident {
    /// The name's interned text.
    pub fn render(&self, interner: &Interner) -> (r: String)
        requires
            ident_resolves(self.deep_view(), interner@),
        ensures
            r@ == spec_render_ident(self.deep_view(), interner@),
    {
        interner.get(self.name).to_owned()
    }
}

impl Path {
    pub fn render(&self, interner: &Interner) -> (r: String)
        requires
            path_resolves(self.deep_view(), interner@),
        ensures
            r@ == spec_render_path(self.deep_view(), interner@),
    {
        let ghost tab = interner@;
        let ghost sv = self.segments@;
        let mut out = String::from_str("(path");
        let mut i: usize = 0;
        proof {
            assert(sv.skip(0) =~= sv);
        }
        while i < self.segments.len()
            invariant
                0 <= i <= sv.len(),
                sv == self.segments@,
                tab == interner@,
                segs_resolve(sv, tab),
                out@ + spec_render_segs(sv.skip(i as int), tab) == "(path"@ + spec_render_segs(
                    sv,
                    tab,
                ),
            decreases sv.len() - i,
        {
            proof {
                lemma_segs_resolve_index(sv, tab, i as int);
                assert(sv.skip(i as int)[0] == sv[i as int]);
                assert(sv.skip(i as int).drop_first() =~= sv.skip(i as int + 1));
            }
            let ghost out0 = out@;
            out.append(" ");
            let piece = self.segments[i].render(interner);
            out.append(piece.as_str());
            proof {
                assert(out@ + spec_render_segs(sv.skip(i as int + 1), tab) =~= out0
                    + spec_render_segs(sv.skip(i as int), tab));
            }
            i = i + 1;
        }
        out.append(")");
        proof {
            assert(sv.skip(sv.len() as int) =~= Seq::<Ident>::empty());
            assert(out@ =~= spec_render_path(self.deep_view(), interner@));
        }
        out
    }
}

/// Renders one type.
fn render_ty(t: &Ty, interner: &Interner) -> (r: String)
    requires
        ty_resolves(ty_view(*t), interner@),
    ensures
        r@ == spec_render_ty(ty_view(*t), interner@),
    decreases *t,
{
    match &t.kind {
        TyKind::Path(p) => p.render(interner),
        TyKind::Tuple(tu) => {
            proof {
                assert(decreases_to!(*t => tu.types@));
            }
            let mut out = String::from_str("(tup");
            let inner = render_tys(&tu.types, interner);
            out.append(inner.as_str());
            out.append(")");
            proof {
                assert(out@ =~= spec_render_ty(ty_view(*t), interner@));
            }
            out
        },
        TyKind::Array(a) => {
            let mut out = String::from_str("(array ");
            let inner = render_ty(&a.ty, interner);
            out.append(inner.as_str());
            out.append(" ");
            match a.len.lexeme() {
                Some(sym) => out.append(interner.get(sym)),
                None => {
                    proof {
                        assert(false);
                    }
                },
            }
            out.append(")");
            proof {
                assert(out@ =~= spec_render_ty(ty_view(*t), interner@));
            }
            out
        },
    }
}

/// Renders a list of types, one space before each.
fn render_tys(v: &Vec<Ty>, interner: &Interner) -> (r: String)
    requires
        tys_resolve(tys_view(v@), interner@),
    ensures
        r@ == spec_render_tys(tys_view(v@), interner@),
    decreases v@,
{
    let ghost tab = interner@;
    let ghost sv = tys_view(v@);
    let mut out = String::new();
    let mut i: usize = 0;
    proof {
        assert(sv.skip(0) =~= sv);
        assert(Seq::<char>::empty() + spec_render_tys(sv, tab) =~= spec_render_tys(sv, tab));
    }
    while i < v.len()
        invariant
            0 <= i <= v@.len(),
            sv == tys_view(v@),
            sv.len() == v@.len(),
            tab == interner@,
            tys_resolve(sv, tab),
            out@ + spec_render_tys(sv.skip(i as int), tab) == spec_render_tys(sv, tab),
        decreases v@.len() - i,
    {
        proof {
            lemma_tys_resolve_index(sv, tab, i as int);
            assert(sv.skip(i as int)[0] == sv[i as int]);
            assert(sv[i as int] == ty_view(v@[i as int]));
            assert(sv.skip(i as int).drop_first() =~= sv.skip(i as int + 1));
            assert(decreases_to!(v@ => v@[i as int]));
        }
        let ghost out0 = out@;
        out.append(" ");
        let piece = render_ty(&v[i], interner);
        out.append(piece.as_str());
        proof {
            assert(out@ + spec_render_tys(sv.skip(i as int + 1), tab) =~= out0 + spec_render_tys(
                sv.skip(i as int),
                tab,
            ));
        }
        i = i + 1;
    }
    proof {
        assert(sv.skip(sv.len() as int) =~= Seq::<TyV>::empty());
        assert(out@ + Seq::<char>::empty() =~= out@);
    }
    out
}

impl Tuple {
    pub fn render(&self, interner: &Interner) -> (r: String)
        requires
            tys_resolve(self.deep_view().types, interner@),
        ensures
            r@ == spec_render_ty_kind(TyKindV::Tuple(self.deep_view()), interner@),
    {
        let mut out = String::from_str("(tup");
        let inner = render_tys(&self.types, interner);
        out.append(inner.as_str());
        out.append(")");
        proof {
            assert(out@ =~= spec_render_ty_kind(TyKindV::Tuple(self.deep_view()), interner@));
        }
        out
    }
}

impl Array {
    pub fn render(&self, interner: &Interner) -> (r: String)
        requires
            ty_resolves(ty_view(*self.ty), interner@),
            self.len.lexeme matches Some(sym) && sym.0 < interner@.len(),
        ensures
            r@ == spec_render_ty_kind(TyKindV::Array(self.deep_view()), interner@),
    {
        let mut out = String::from_str("(array ");
        let inner = render_ty(&self.ty, interner);
        out.append(inner.as_str());
        out.append(" ");
        match self.len.lexeme() {
            Some(sym) => out.append(interner.get(sym)),
            None => {
                proof {
                    assert(false);
                }
            },
        }
        out.append(")");
        proof {
            assert(out@ =~= spec_render_ty_kind(TyKindV::Array(self.deep_view()), interner@));
        }
        out
    }
}

impl TyKind {
    pub fn render(&self, interner: &Interner) -> (r: String)
        requires
            ty_kind_resolves(self.deep_view(), interner@),
        ensures
            r@ == spec_render_ty_kind(self.deep_view(), interner@),
    {
        match self {
            TyKind::Path(p) => p.render(interner),
            TyKind::Tuple(tu) => tu.render(interner),
            TyKind::Array(a) => a.render(interner),
        }
    }
}

impl Ty {
    pub fn render(&self, interner: &Interner) -> (r: String)
        requires
            ty_resolves(self.deep_view(), interner@),
        ensures
            r@ == spec_render_ty(self.deep_view(), interner@),
    {
        render_ty(self, interner)
    }
}

impl Variant {
    pub fn render(&self, interner: &Interner) -> (r: String)
        requires
            variant_resolves(self.deep_view(), interner@),
        ensures
            r@ == spec_render_variant(self.deep_view(), interner@),
    {
        let mut out = String::from_str("(variant ");
        let name = self.name.render(interner);
        out.append(name.as_str());
        let inner = render_tys(&self.data, interner);
        out.append(inner.as_str());
        out.append(")");
        proof {
            assert(out@ =~= spec_render_variant(self.deep_view(), interner@));
        }
        out
    }
}

impl Enum {
    pub fn render(&self, interner: &Interner) -> (r: String)
        requires
            enum_resolves(self.deep_view(), interner@),
        ensures
            r@ == spec_render_enum(self.deep_view(), interner@),
    {
        let ghost tab = interner@;
        let ghost sv = self.deep_view().variants;
        let mut out = String::from_str("(enum");
        let mut i: usize = 0;
        proof {
            assert(sv.skip(0) =~= sv);
        }
        while i < self.variants.len()
            invariant
                0 <= i <= self.variants@.len(),
                sv == self.variants.deep_view(),
                sv.len() == self.variants@.len(),
                tab == interner@,
                variants_resolve(sv, tab),
                out@ + spec_render_variants(sv.skip(i as int), tab) == "(enum"@
                    + spec_render_variants(sv, tab),
            decreases self.variants@.len() - i,
        {
            proof {
                lemma_variants_resolve_index(sv, tab, i as int);
                assert(sv.skip(i as int)[0] == sv[i as int]);
                assert(sv[i as int] == self.variants@[i as int].deep_view());
                assert(sv.skip(i as int).drop_first() =~= sv.skip(i as int + 1));
            }
            let ghost out0 = out@;
            out.append(" ");
            let piece = self.variants[i].render(interner);
            out.append(piece.as_str());
            proof {
                assert(out@ + spec_render_variants(sv.skip(i as int + 1), tab) =~= out0
                    + spec_render_variants(sv.skip(i as int), tab));
            }
            i = i + 1;
        }
        out.append(")");
        proof {
            assert(sv.skip(sv.len() as int) =~= Seq::<VariantV>::empty());
            assert(out@ =~= spec_render_enum(self.deep_view(), interner@));
        }
        out
    }
}

impl Param {
    pub fn render(&self, interner: &Interner) -> (r: String)
        requires
            param_resolves(self.deep_view(), interner@),
        ensures
            r@ == spec_render_param(self.deep_view(), interner@),
    {
        let mut out = String::from_str("(param ");
        let name = self.name.render(interner);
        out.append(name.as_str());
        out.append(" ");
        let ty = render_ty(&self.ty, interner);
        out.append(ty.as_str());
        out.append(")");
        proof {
            assert(out@ =~= spec_render_param(self.deep_view(), interner@));
        }
        out
    }
}

impl Record {
    pub fn render(&self, interner: &Interner) -> (r: String)
        requires
            record_resolves(self.deep_view(), interner@),
        ensures
            r@ == spec_render_record(self.deep_view(), interner@),
    {
        let ghost tab = interner@;
        let ghost sv = self.deep_view().fields;
        let mut out = String::from_str("(record");
        let mut i: usize = 0;
        proof {
            assert(sv.skip(0) =~= sv);
        }
        while i < self.fields.len()
            invariant
                0 <= i <= self.fields@.len(),
                sv == self.fields.deep_view(),
                sv.len() == self.fields@.len(),
                tab == interner@,
                params_resolve(sv, tab),
                out@ + spec_render_params(sv.skip(i as int), tab) == "(record"@
                    + spec_render_params(sv, tab),
            decreases self.fields@.len() - i,
        {
            proof {
                lemma_params_resolve_index(sv, tab, i as int);
                assert(sv.skip(i as int)[0] == sv[i as int]);
                assert(sv[i as int] == self.fields@[i as int].deep_view());
                assert(sv.skip(i as int).drop_first() =~= sv.skip(i as int + 1));
            }
            let ghost out0 = out@;
            out.append(" ");
            let piece = self.fields[i].render(interner);
            out.append(piece.as_str());
            proof {
                assert(out@ + spec_render_params(sv.skip(i as int + 1), tab) =~= out0
                    + spec_render_params(sv.skip(i as int), tab));
            }
            i = i + 1;
        }
        out.append(")");
        proof {
            assert(sv.skip(sv.len() as int) =~= Seq::<ParamV>::empty());
            assert(out@ =~= spec_render_record(self.deep_view(), interner@));
        }
        out
    }
}

impl TyDefKind {
    pub fn render(&self, interner: &Interner) -> (r: String)
        requires
            ty_def_kind_resolves(self.deep_view(), interner@),
        ensures
            r@ == spec_render_ty_def_kind(self.deep_view(), interner@),
    {
        match self {
            TyDefKind::Alias(t) => t.render(interner),
            TyDefKind::Record(rc) => rc.render(interner),
            TyDefKind::Enum(en) => en.render(interner),
        }
    }
}

impl TyDef {
    pub fn render(&self, interner: &Interner) -> (r: String)
        requires
            ty_def_resolves(self.deep_view(), interner@),
        ensures
            r@ == spec_render_ty_def(self.deep_view(), interner@),
    {
        let mut out = String::from_str("(typedef ");
        let name = self.name.render(interner);
        out.append(name.as_str());
        out.append(" ");
        let kind = self.ty.render(interner);
        out.append(kind.as_str());
        out.append(")");
        proof {
            assert(out@ =~= spec_render_ty_def(self.deep_view(), interner@));
        }
        out
    }
}

} // verus!
