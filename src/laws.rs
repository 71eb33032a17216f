use vstd::prelude::*;

use crate::module_map::{dir_owner, file_mod_path, dir_mod_path, points_to, problem_of, ProblemView};
use crate::registry::{
    apply_batch, apply_batch_nodes, apply_change, files_without, find_file, lemma_find_without,
};
use crate::resolver::FileResolver;
use crate::symbols::{flatten, matching, pairs_of, search, symbol_table, truncate, SymbolView};
use crate::syntax::{FileId, FileView, TextRange};
use crate::edits::DiagnosticView;
use crate::world::{exact_query, file_diagnostics, module_problems, problem_diagnostic, ref_at, resolved_at};

verus! {

/// A file read right after it was set is the file that was set.
pub proof fn lemma_read_after_insert(v: Seq<(FileId, FileView)>, id: FileId, f: FileView)
    ensures
        find_file(apply_change(v, id, Some(f)), id) == Some(f),
{
}

/// A deleted file is not found; set again, it is found with its new content
/// only, and nothing of what it held before.
pub proof fn lemma_delete_then_reinsert(v: Seq<(FileId, FileView)>, id: FileId, f: FileView)
    ensures
        find_file(apply_change(v, id, None), id) is None,
        find_file(apply_change(apply_change(v, id, None), id, Some(f)), id) == Some(f),
{
    lemma_find_without(v, id, id);
}

/// A change of one file leaves every other file as it was.
pub proof fn lemma_change_is_local(v: Seq<(FileId, FileView)>, id: FileId, text: Option<FileView>, other: FileId)
    requires
        other != id,
    ensures
        find_file(apply_change(v, id, text), other) == find_file(v, other),
{
    lemma_find_without(v, id, other);
    match text {
        Some(f) => {
            assert(apply_change(v, id, text).drop_last() =~= crate::registry::files_without(v, id));
        },
        None => {},
    }
}

proof fn lemma_matching_exact(
    name: Seq<char>,
    limit: nat,
    s: Seq<(FileId, SymbolView)>,
)
    ensures
        forall|i: int|
            0 <= i < matching((name, true, limit), s).len() ==> #[trigger] matching(
                (name, true, limit),
                s,
            )[i].1.0 == name,
    decreases s.len(),
{
    if s.len() > 0 {
        let q = (name, true, limit);
        lemma_matching_exact(name, limit, s.drop_last());
        let prev = matching(q, s.drop_last());
        if crate::symbols::symbol_matches(q, s.last().1.0) {
            assert forall|i: int| 0 <= i < matching(q, s).len() implies #[trigger] matching(q, s)[i].1.0 == name by {
                if i < prev.len() {
                    assert(matching(q, s)[i] == prev[i]);
                }
            }
        }
    }
}

/// An exact search finds only symbols of that very name, and no more of them
/// than its limit.
pub proof fn lemma_exact_search(name: Seq<char>, limit: nat, files: Seq<(FileId, FileView)>)
    ensures
        search((name, true, limit), symbol_table(files)).len() <= limit,
        forall|i: int|
            0 <= i < search((name, true, limit), symbol_table(files)).len() ==> #[trigger] search(
                (name, true, limit),
                symbol_table(files),
            )[i].1.0 == name,
{
    let m = matching((name, true, limit), crate::symbols::flatten(symbol_table(files)));
    lemma_matching_exact(name, limit, crate::symbols::flatten(symbol_table(files)));
    assert forall|i: int|
        0 <= i < search((name, true, limit), symbol_table(files)).len() implies #[trigger] search(
            (name, true, limit),
            symbol_table(files),
        )[i].1.0 == name by {
        assert(search((name, true, limit), symbol_table(files))[i] == m[i]);
    }
}

/// At a name reference, resolving a symbol is the exact search, at most four
/// results, for the reference's text.
pub proof fn lemma_resolve_is_exact_search<R: FileResolver>(
    r: &R,
    v: Seq<(FileId, FileView)>,
    id: FileId,
    f: FileView,
    offset: u32,
)
    requires
        ref_at(f.name_refs, offset) is Some,
    ensures
        resolved_at(r, v, id, f, offset) == search(
            exact_query(ref_at(f.name_refs, offset)->Some_0),
            symbol_table(v),
        ),
{
}

/// An empty batch changes neither the files nor the module graph's nodes.
pub proof fn lemma_empty_batch(v: Seq<(FileId, FileView)>, mods: Seq<FileId>)
    ensures
        apply_batch(v, Seq::empty()) == v,
        apply_batch_nodes(mods, v, Seq::empty()) == mods,
{
}

proof fn lemma_without_has_no_entry(v: Seq<(FileId, FileView)>, id: FileId)
    ensures
        forall|i: int| 0 <= i < files_without(v, id).len() ==> #[trigger] files_without(v, id)[i].0 != id,
    decreases v.len(),
{
    if v.len() > 0 {
        lemma_without_has_no_entry(v.drop_last(), id);
        let p = files_without(v.drop_last(), id);
        if v.last().0 != id {
            assert forall|i: int| 0 <= i < files_without(v, id).len() implies #[trigger] files_without(v, id)[i].0 != id by {
                if i < p.len() {
                    assert(files_without(v, id)[i] == p[i]);
                }
            }
        }
    }
}

proof fn lemma_matching_within(q: (Seq<char>, bool, nat), s: Seq<(FileId, SymbolView)>, x: (FileId, SymbolView))
    ensures
        matching(q, s).contains(x) ==> s.contains(x),
    decreases s.len(),
{
    if s.len() > 0 {
        let p = s.drop_last();
        lemma_matching_within(q, p, x);
        let m = matching(q, s);
        if m.contains(x) {
            let k = choose|k: int| 0 <= k < m.len() && m[k] == x;
            if k < matching(q, p).len() {
                assert(matching(q, p)[k] == x);
                let j = choose|j: int| 0 <= j < p.len() && p[j] == x;
                assert(s[j] == x);
            } else {
                assert(s[s.len() - 1] == x);
            }
        }
    }
}

proof fn lemma_flatten_origin(t: Seq<(FileId, Seq<SymbolView>)>, x: (FileId, SymbolView))
    ensures
        flatten(t).contains(x) ==> exists|i: int|
            0 <= i < t.len() && #[trigger] t[i].0 == x.0 && t[i].1.contains(x.1),
    decreases t.len(),
{
    if t.len() > 0 && flatten(t).contains(x) {
        let p = t.drop_last();
        let f = flatten(t);
        let k = choose|k: int| 0 <= k < f.len() && f[k] == x;
        if k < flatten(p).len() {
            assert(flatten(p)[k] == x);
            lemma_flatten_origin(p, x);
            let i = choose|i: int| 0 <= i < p.len() && #[trigger] p[i].0 == x.0 && p[i].1.contains(x.1);
            assert(t[i] == p[i]);
        } else {
            let j = k - flatten(p).len();
            let last = t.last();
            assert(pairs_of(last.0, last.1)[j] == x);
            assert(last.1[j] == x.1);
            assert(t[t.len() - 1] == last);
        }
    }
}

/// Once a file is deleted and set again, a search reports for it only
/// symbols of its new content.
pub proof fn lemma_reinsert_symbols(
    v: Seq<(FileId, FileView)>,
    id: FileId,
    f: FileView,
    q: (Seq<char>, bool, nat),
)
    ensures
        forall|k: int|
            0 <= k < search(q, symbol_table(apply_change(apply_change(v, id, None), id, Some(f)))).len()
                && (#[trigger] search(
                q,
                symbol_table(apply_change(apply_change(v, id, None), id, Some(f))),
            )[k]).0 == id ==> f.symbols.contains(
                search(q, symbol_table(apply_change(apply_change(v, id, None), id, Some(f))))[k].1,
            ),
{
    let u = apply_change(v, id, None);
    let w = apply_change(u, id, Some(f));
    let t = symbol_table(w);
    let r = search(q, t);
    let m = matching(q, flatten(t));
    lemma_without_has_no_entry(u, id);
    assert forall|k: int| 0 <= k < r.len() && (#[trigger] r[k]).0 == id implies f.symbols.contains(r[k].1) by {
        let x = r[k];
        assert(r[k] == m[k]);
        assert(m.contains(x));
        lemma_matching_within(q, flatten(t), x);
        lemma_flatten_origin(t, x);
        let i = choose|i: int| 0 <= i < t.len() && #[trigger] t[i].0 == x.0 && t[i].1.contains(x.1);
        if i < w.len() - 1 {
            assert(w[i] == files_without(u, id)[i]);
        }
    }
}

/// A `mod name;` in a file that owns its directory, with no file for it,
/// gives exactly one diagnostic: an unresolved module, whose fix creates the
/// file beside the declaring one.
pub proof fn lemma_unresolved_module<R: FileResolver>(
    r: &R,
    v: Seq<(FileId, FileView)>,
    a: FileId,
    f: FileView,
    name: Seq<char>,
    name_range: TextRange,
    node_range: TextRange,
)
    requires
        dir_owner(r.stem_of(a)),
        points_to(r, v, a, name).len() == 0,
        f.errors.len() == 0,
        f.modules == seq![(name, name_range, node_range, true)],
    ensures
        file_diagnostics(r, v, a, f) == seq![
            problem_diagnostic(a, name_range, ProblemView::UnresolvedModule { candidate: file_mod_path(name) }),
        ],
{
    assert(f.modules.drop_last() =~= Seq::<(Seq<char>, TextRange, TextRange, bool)>::empty());
    assert(f.errors.map_values(|e: (TextRange, Seq<char>)| (e.0, e.1, None::<crate::edits::SourceChangeView>)) =~= seq![]);
    let d = problem_diagnostic(a, name_range, ProblemView::UnresolvedModule { candidate: file_mod_path(name) });
    assert(module_problems(r, v, a, f.modules.drop_last()) == Seq::<DiagnosticView>::empty());
    assert(problem_of(r, v, a, name) == Some(ProblemView::UnresolvedModule { candidate: file_mod_path(name) }));
    assert(f.modules.last() == (name, name_range, node_range, true));
    assert(module_problems(r, v, a, f.modules) =~= seq![d]);
    assert(file_diagnostics(r, v, a, f) =~= seq![
        problem_diagnostic(a, name_range, ProblemView::UnresolvedModule { candidate: file_mod_path(name) }),
    ]);
}

/// A `mod name;` in a file that does not own its directory gives exactly one
/// diagnostic, whose fix moves the file to `../<stem>/mod.rs` and creates the
/// submodule from there.
pub proof fn lemma_not_dir_owner<R: FileResolver>(
    r: &R,
    v: Seq<(FileId, FileView)>,
    b: FileId,
    f: FileView,
    name: Seq<char>,
    name_range: TextRange,
    node_range: TextRange,
)
    requires
        !dir_owner(r.stem_of(b)),
        f.errors.len() == 0,
        f.modules == seq![(name, name_range, node_range, true)],
    ensures
        file_diagnostics(r, v, b, f) == seq![
            problem_diagnostic(
                b,
                name_range,
                ProblemView::NotDirOwner {
                    move_to: dir_mod_path(r.stem_of(b)),
                    candidate: file_mod_path(name),
                },
            ),
        ],
{
    assert(f.modules.drop_last() =~= Seq::<(Seq<char>, TextRange, TextRange, bool)>::empty());
    assert(f.errors.map_values(|e: (TextRange, Seq<char>)| (e.0, e.1, None::<crate::edits::SourceChangeView>)) =~= seq![]);
    let d = problem_diagnostic(b, name_range, ProblemView::NotDirOwner { move_to: dir_mod_path(r.stem_of(b)), candidate: file_mod_path(name) });
    assert(module_problems(r, v, b, f.modules.drop_last()) == Seq::<DiagnosticView>::empty());
    assert(problem_of(r, v, b, name) == Some(ProblemView::NotDirOwner { move_to: dir_mod_path(r.stem_of(b)), candidate: file_mod_path(name) }));
    assert(f.modules.last() == (name, name_range, node_range, true));
    assert(module_problems(r, v, b, f.modules) =~= seq![d]);
    assert(file_diagnostics(r, v, b, f) =~= seq![
        problem_diagnostic(
            b,
            name_range,
            ProblemView::NotDirOwner { move_to: dir_mod_path(r.stem_of(b)), candidate: file_mod_path(name) },
        ),
    ]);
}

} // verus!
