use std::sync::Arc;
use vstd::prelude::*;

use crate::registry::registry_view;
use crate::syntax::{File, FileId, FileSymbol, FileView, SymbolKind, TextRange};

verus! {

pub type SymbolView = (Seq<char>, TextRange, SymbolKind);

/// A symbol search: the name looked for, whether only that exact name
/// matches (else every name that holds its characters in order), and how many
/// results at most.
#[derive(Debug)]
pub struct Query {
    pub query: String,
    pub exact: bool,
    pub limit: usize,
}

impl View for Query {
    type V = (Seq<char>, bool, nat);

    open spec fn view(&self) -> Self::V {
        (self.query@, self.exact, self.limit as nat)
    }
}

impl Query {
    /// A fuzzy search for `query` without a useful bound on the results.
    pub fn new(query: String) -> (r: Query)
        ensures
            r@ == (query@, false, usize::MAX as nat),
    {
        Query { query, exact: false, limit: usize::MAX }
    }

    /// Only the exact name matches from now on.
    pub fn exact(&mut self)
        ensures
            final(self)@ == (old(self)@.0, true, old(self)@.2),
    {
        self.exact = true;
    }

    /// At most `limit` results.
    pub fn limit(&mut self, limit: usize)
        ensures
            final(self)@ == (old(self)@.0, old(self)@.1, limit as nat),
    {
        self.limit = limit;
    }
}

/// `q` occurs in `s` as a subsequence: its characters, in order, not
/// necessarily adjacent.
pub open spec fn is_subsequence(q: Seq<char>, s: Seq<char>) -> bool
    decreases s.len(),
{
    if q.len() == 0 {
        true
    } else if s.len() == 0 {
        false
    } else if q.last() == s.last() {
        is_subsequence(q.drop_last(), s.drop_last())
    } else {
        is_subsequence(q, s.drop_last())
    }
}

/// Whether a symbol named `name` answers the query `q`.
pub open spec fn symbol_matches(q: (Seq<char>, bool, nat), name: Seq<char>) -> bool {
    if q.1 {
        name == q.0
    } else {
        is_subsequence(q.0, name)
    }
}

/// The symbols of one file, each paired with the file.
pub open spec fn pairs_of(id: FileId, syms: Seq<SymbolView>) -> Seq<(FileId, SymbolView)> {
    syms.map_values(|s: SymbolView| (id, s))
}

/// The symbols of all files, file after file.
pub open spec fn flatten(files: Seq<(FileId, Seq<SymbolView>)>) -> Seq<(FileId, SymbolView)>
    decreases files.len(),
{
    if files.len() == 0 {
        seq![]
    } else {
        flatten(files.drop_last()) + pairs_of(files.last().0, files.last().1)
    }
}

/// The entries of `s` whose symbol answers `q`, in order.
pub open spec fn matching(q: (Seq<char>, bool, nat), s: Seq<(FileId, SymbolView)>) -> Seq<
    (FileId, SymbolView),
>
    decreases s.len(),
{
    if s.len() == 0 {
        seq![]
    } else if symbol_matches(q, s.last().1.0) {
        matching(q, s.drop_last()).push(s.last())
    } else {
        matching(q, s.drop_last())
    }
}

/// The first `n` items of `s`, or all of them if there are fewer.
pub open spec fn truncate<A>(s: Seq<A>, n: nat) -> Seq<A> {
    if s.len() <= n {
        s
    } else {
        s.take(n as int)
    }
}

/// The answer to `q` over the symbol lists of `files`: the matches in file
/// order, then in each file's own order, cut at the limit.
pub open spec fn search(q: (Seq<char>, bool, nat), files: Seq<(FileId, Seq<SymbolView>)>) -> Seq<
    (FileId, SymbolView),
> {
    truncate(matching(q, flatten(files)), q.2)
}

/// The symbol lists of registry entries.
pub open spec fn symbol_table(files: Seq<(FileId, FileView)>) -> Seq<(FileId, Seq<SymbolView>)> {
    files.map_values(|e: (FileId, FileView)| (e.0, e.1.symbols))
}

/// Plain view of a list of search results.
pub open spec fn hits_view(v: Seq<(FileId, FileSymbol)>) -> Seq<(FileId, SymbolView)> {
    v.map_values(|p: (FileId, FileSymbol)| (p.0, p.1@))
}

/// Whether `q` is a subsequence of `s`.
pub fn subsequence_of(q: &str, s: &str) -> (r: bool)
    ensures
        r == is_subsequence(q@, s@),
{
    let mut i: usize = q.unicode_len();
    let mut j: usize = s.unicode_len();
    assert(q@.take(i as int) =~= q@);
    assert(s@.take(j as int) =~= s@);
    while j > 0
        invariant
            i <= q@.len(),
            j <= s@.len(),
            is_subsequence(q@, s@) == is_subsequence(q@.take(i as int), s@.take(j as int)),
        decreases j,
    {
        let ghost qi = q@.take(i as int);
        let ghost sj = s@.take(j as int);
        assert(sj.drop_last() =~= s@.take(j - 1));
        if i > 0 && q.get_char(i - 1) == s.get_char(j - 1) {
            assert(qi.drop_last() =~= q@.take(i - 1));
            i = i - 1;
        }
        j = j - 1;
    }
    assert(s@.take(0) =~= Seq::<char>::empty());
    i == 0
}

/// Whether the symbol name `name` answers `query`.
pub fn name_matches(query: &Query, name: &String) -> (r: bool)
    ensures
        r == symbol_matches(query@, name@),
{
    if query.exact {
        *name == query.query
    } else {
        subsequence_of(query.query.as_str(), name.as_str())
    }
}

/// Runs `query` over the symbol lists of `files`, in their order, and
/// stops taking results at the query's limit.
pub fn search_files(query: &Query, files: &Vec<(FileId, Arc<File>)>) -> (r: Vec<(FileId, FileSymbol)>)
    ensures
        hits_view(r@) == search(query@, symbol_table(registry_view(files@))),
{
    let ghost q = query@;
    let ghost table = symbol_table(registry_view(files@));
    let mut res: Vec<(FileId, FileSymbol)> = Vec::new();
    let mut i: usize = 0;
    assert(table.take(0) =~= Seq::<(FileId, Seq<SymbolView>)>::empty());
    while i < files.len()
        invariant
            i <= files@.len(),
            table == symbol_table(registry_view(files@)),
            q == query@,
            hits_view(res@) == truncate(matching(q, flatten(table.take(i as int))), q.2),
        decreases files@.len() - i,
    {
        let id = files[i].0;
        let file: &File = &files[i].1;
        let ghost syms = file@.symbols;
        let ghost before = flatten(table.take(i as int));
        assert(table[i as int] == (id, syms));
        let mut j: usize = 0;
        assert(before + pairs_of(id, syms).take(0) =~= before);
        while j < file.symbols.len()
            invariant
                j <= file.symbols@.len(),
                syms == file@.symbols,
                q == query@,
                hits_view(res@) == truncate(matching(q, before + pairs_of(id, syms).take(j as int)), q.2),
            decreases file.symbols@.len() - j,
        {
            let sym = &file.symbols[j];
            let ghost pre = before + pairs_of(id, syms).take(j as int);
            let ghost x = (id, sym@);
            assert(before + pairs_of(id, syms).take(j + 1) =~= pre.push(x));
            assert(pre.push(x).drop_last() =~= pre);
            let ghost m = matching(q, pre);
            let ghost old_res = res@;
            if name_matches(query, &sym.name) && res.len() < query.limit {
                assert(hits_view(old_res).len() == old_res.len());
                assert(hits_view(old_res) == m);
                let copy = sym.duplicate();
                res.push((id, copy));
                assert(hits_view(res@) =~= hits_view(old_res).push(x));
            } else {
                assert(hits_view(res@) =~= truncate(matching(q, pre.push(x)), q.2));
            }
            j = j + 1;
        }
        assert(table.take(i + 1).drop_last() =~= table.take(i as int));
        assert(pairs_of(id, syms).take(syms.len() as int) =~= pairs_of(id, syms));
        i = i + 1;
    }
    assert(table.take(files@.len() as int) =~= table);
    res
}

} // verus!
