//! Append-only string table: deduplicates strings and issues small integer
//! handles for them.

use vstd::prelude::*;

verus! {

/// Opaque handle for an interned string. Two symbols issued by the same
/// interner are equal exactly when their source strings are equal.
#[derive(Clone, Copy, Debug, PartialEq, Eq, Structural)]
pub struct Symbol(pub u32);

/// The index of the first entry of `table` equal to `text`, searching from
/// position `i` on.
pub open spec fn spec_lookup_from(table: Seq<Seq<char>>, text: Seq<char>, i: int) -> Option<int>
    decreases table.len() - i,
{
    if 0 <= i < table.len() {
        if table[i] == text {
            Some(i)
        } else {
            spec_lookup_from(table, text, i + 1)
        }
    } else {
        None
    }
}

/// The index of the first entry of `table` equal to `text`, if any.
pub open spec fn spec_lookup(table: Seq<Seq<char>>, text: Seq<char>) -> Option<int> {
    spec_lookup_from(table, text, 0)
}

/// What inserting `text` does to a table: an already-present text leaves the
/// table unchanged and yields the index of its first occurrence; a new text is
/// appended and yields the index of the new entry.
pub open spec fn spec_insert(table: Seq<Seq<char>>, text: Seq<char>) -> (Seq<Seq<char>>, int) {
    match spec_lookup(table, text) {
        Some(i) => (table, i),
        None => (table.push(text), table.len() as int),
    }
}

proof fn lemma_lookup_from_found(table: Seq<Seq<char>>, text: Seq<char>, i: int)
    ensures
        spec_lookup_from(table, text, i) matches Some(k) ==> i <= k < table.len()
            && table[k] == text,
    decreases table.len() - i,
{
    if 0 <= i < table.len() && table[i] != text {
        lemma_lookup_from_found(table, text, i + 1);
    }
}

proof fn lemma_lookup_from_push_absent(table: Seq<Seq<char>>, text: Seq<char>, i: int)
    requires
        0 <= i <= table.len(),
        spec_lookup_from(table, text, i) is None,
    ensures
        spec_lookup_from(table.push(text), text, i) == Some(table.len() as int),
    decreases table.len() - i,
{
    if i < table.len() {
        lemma_lookup_from_push_absent(table, text, i + 1);
    }
}

proof fn lemma_lookup_from_stable(table: Seq<Seq<char>>, more: Seq<Seq<char>>, text: Seq<char>, i: int)
    requires
        0 <= i,
        table.is_prefix_of(more),
        spec_lookup_from(table, text, i) matches Some(k),
    ensures
        spec_lookup_from(more, text, i) == spec_lookup_from(table, text, i),
    decreases table.len() - i,
{
    if 0 <= i < table.len() && table[i] != text {
        lemma_lookup_from_stable(table, more, text, i + 1);
    }
}

/// Inserting always yields a handle that the resulting table resolves to the
/// inserted text, and the table only ever grows by that text.
pub proof fn lemma_insert_resolves(table: Seq<Seq<char>>, text: Seq<char>)
    ensures
        ({
            let (t2, k) = spec_insert(table, text);
            &&& 0 <= k < t2.len()
            &&& t2[k] == text
            &&& table.is_prefix_of(t2)
        }),
{
    lemma_lookup_from_found(table, text, 0);
}

/// Inserting the same text twice returns the same handle both times and
/// leaves the table as the first insertion left it.
pub proof fn lemma_insert_idempotent(table: Seq<Seq<char>>, text: Seq<char>)
    ensures
        ({
            let (t1, k1) = spec_insert(table, text);
            let (t2, k2) = spec_insert(t1, text);
            &&& t2 == t1
            &&& k2 == k1
        }),
{
    lemma_lookup_from_found(table, text, 0);
    match spec_lookup(table, text) {
        Some(_) => {
        }
        None => {
            lemma_lookup_from_push_absent(table, text, 0);
        }
    }
}

/// Inserting two distinct texts, one after the other, returns two distinct
/// handles.
pub proof fn lemma_insert_distinct(table: Seq<Seq<char>>, text1: Seq<char>, text2: Seq<char>)
    requires
        text1 != text2,
    ensures
        ({
            let (t1, k1) = spec_insert(table, text1);
            let (t2, k2) = spec_insert(t1, text2);
            k1 != k2
        }),
{
    let (t1, k1) = spec_insert(table, text1);
    let (t2, k2) = spec_insert(t1, text2);
    lemma_insert_resolves(table, text1);
    lemma_insert_resolves(t1, text2);
    assert(t1.is_prefix_of(t2));
    assert(t2[k1] == text1);
}

/// Append-only bidirectional table between strings and symbols. Its view is
/// the sequence of interned texts, in order of first insertion; `Symbol(k)`
/// stands for the text at index `k`.
#[derive(Default, Clone, Debug)]
pub struct Interner {
    strings: Vec<String>,
}

impl View for Interner {
    type V = Seq<Seq<char>>;

    closed spec fn view(&self) -> Seq<Seq<char>> {
        self.strings.deep_view()
    }
}

impl Interner {
    pub fn new() -> (r: Interner)
        ensures
            r@ == Seq::<Seq<char>>::empty(),
    {
        let r = Interner { strings: Vec::new() };
        proof {
            assert(r@ =~= Seq::<Seq<char>>::empty());
        }
        r
    }

    /// Returns the symbol for `string`, interning it first if it was never
    /// seen before; an already-interned string keeps its original symbol.
    pub fn insert(&mut self, string: String) -> (sym: Symbol)
        requires
            old(self)@.len() <= u32::MAX as nat,
        ensures
            final(self)@ == spec_insert(old(self)@, string@).0,
            sym.0 as int == spec_insert(old(self)@, string@).1,
    {
        let ghost table = self@;
        let n = self.strings.len();
        let mut k: usize = 0;
        while k < n
            invariant
                n == self.strings.len(),
                0 <= k <= n,
                self@ == table,
                table.len() <= u32::MAX as nat,
                spec_lookup(table, string@) == spec_lookup_from(table, string@, k as int),
            decreases n - k,
        {
            if self.strings[k] == string {
                assert(table[k as int] == string@);
                return Symbol(k as u32);
            }
            assert(table[k as int] != string@);
            k += 1;
        }
        let sym = Symbol(n as u32);
        self.strings.push(string);
        proof {
            assert(self@ =~= table.push(string@));
        }
        sym
    }

    /// The text that `sym` stands for.
    pub fn get(&self, sym: Symbol) -> (r: &str)
        requires
            sym.0 < self@.len(),
        ensures
            r@ == self@[sym.0 as int],
    {
        self.strings[sym.0 as usize].as_str()
    }
}

} // verus!
