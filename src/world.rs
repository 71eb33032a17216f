use std::sync::Arc;
use vstd::prelude::*;

use crate::edits::{Diagnostic, DiagnosticView, FsOp, FsOpView, SourceChange, SourceChangeView};
use crate::module_map::{path_join, join_path, points_to, problem_of, resolve_submodule, Problem, ProblemView};
use crate::registry::{
    apply_batch, apply_batch_nodes, apply_change, apply_node_change, batch_view, find_file, lookup, option_view, share, take_for_change,
    WorldData,
};
use crate::resolver::FileResolver;
use crate::symbols::{hits_view, search, search_files, symbol_table, Query, SymbolView};
use crate::syntax::{File, FileId, FileSymbol, FileView, LocalEdit, ModuleDecl, NameRef, SymbolKind, TextRange};
use crate::line_index::{line_starts, LineIndex};
use vstd::utf8::encode_utf8;

verus! {

/// Why a query failed.
#[derive(Clone, Copy, Debug, PartialEq, Eq, Structural)]
pub enum AnalysisError {
    /// The file is not in this snapshot.
    NotFound(FileId),
}

/// The diagnostic for the problem `p` of a declaration in `file` whose name
/// lies at `range`, with its fix.
pub open spec fn problem_diagnostic(file: FileId, range: TextRange, p: ProblemView) -> DiagnosticView {
    match p {
        ProblemView::UnresolvedModule { candidate } => (
            range,
            "unresolved module"@,
            Some(
                (
                    "create module"@,
                    seq![],
                    seq![FsOpView::CreateFile { anchor: file, path: candidate }],
                    None,
                ),
            ),
        ),
        ProblemView::NotDirOwner { move_to, candidate } => (
            range,
            "can't declare module at this location"@,
            Some(
                (
                    "move file and create module"@,
                    seq![],
                    seq![
                        FsOpView::MoveFile { file: file, path: move_to },
                        FsOpView::CreateFile { anchor: file, path: path_join(move_to, candidate) },
                    ],
                    None,
                ),
            ),
        ),
    }
}

/// The diagnostics of the module declarations `decls` of `file`, one per
/// `mod name;` with a problem, in declaration order.
pub open spec fn module_problems<R: FileResolver>(
    r: &R,
    v: Seq<(FileId, FileView)>,
    file: FileId,
    decls: Seq<(Seq<char>, TextRange, TextRange, bool)>,
) -> Seq<DiagnosticView>
    decreases decls.len(),
{
    if decls.len() == 0 {
        seq![]
    } else {
        let rest = module_problems(r, v, file, decls.drop_last());
        let d = decls.last();
        if d.3 {
            match problem_of(r, v, file, d.0) {
                Some(p) => rest.push(problem_diagnostic(file, d.1, p)),
                None => rest,
            }
        } else {
            rest
        }
    }
}

/// The diagnostics of the file `file`: its syntax errors, then the problems
/// of its module declarations.
pub open spec fn file_diagnostics<R: FileResolver>(
    r: &R,
    v: Seq<(FileId, FileView)>,
    file: FileId,
    f: FileView,
) -> Seq<DiagnosticView> {
    f.errors.map_values(|e: (TextRange, Seq<char>)| (e.0, e.1, None::<SourceChangeView>))
        + module_problems(r, v, file, f.modules)
}

pub open spec fn diagnostics_view(d: Seq<Diagnostic>) -> Seq<DiagnosticView> {
    d.map_values(|x: Diagnostic| x@)
}

/// Turns a problem of a declaration in `file` into its diagnostic.
fn diagnostic_of_problem(file: FileId, range: TextRange, p: Problem) -> (r: Diagnostic)
    ensures
        r@ == problem_diagnostic(file, range, p@),
{
    match p {
        Problem::UnresolvedModule { candidate } => {
            let mut ops: Vec<FsOp> = Vec::new();
            ops.push(FsOp::CreateFile { anchor: file, path: candidate });
            let fix = SourceChange {
                label: String::from_str("create module"),
                source_file_edits: Vec::new(),
                file_system_edits: ops,
                cursor_position: None,
            };
            let r = Diagnostic {
                range,
                message: String::from_str("unresolved module"),
                fix: Some(fix),
            };
            assert(r@ =~= problem_diagnostic(file, range, p@));
            r
        },
        Problem::NotDirOwner { move_to, candidate } => {
            let target = join_path(move_to.as_str(), candidate.as_str());
            let mut ops: Vec<FsOp> = Vec::new();
            ops.push(FsOp::MoveFile { file, path: move_to });
            ops.push(FsOp::CreateFile { anchor: file, path: target });
            let fix = SourceChange {
                label: String::from_str("move file and create module"),
                source_file_edits: Vec::new(),
                file_system_edits: ops,
                cursor_position: None,
            };
            let r = Diagnostic {
                range,
                message: String::from_str("can't declare module at this location"),
                fix: Some(fix),
            };
            assert(r@.2->Some_0.2 =~= problem_diagnostic(file, range, p@).2->Some_0.2);
            assert(r@ =~= problem_diagnostic(file, range, p@));
            r
        },
    }
}

/// The declarations among `decls` of the module `m` that lead to `target`,
/// as symbols of `m`, in declaration order.
pub open spec fn parents_in<R: FileResolver>(
    r: &R,
    v: Seq<(FileId, FileView)>,
    target: FileId,
    m: FileId,
    decls: Seq<(Seq<char>, TextRange, TextRange, bool)>,
) -> Seq<(FileId, SymbolView)>
    decreases decls.len(),
{
    if decls.len() == 0 {
        seq![]
    } else {
        let rest = parents_in(r, v, target, m, decls.drop_last());
        let d = decls.last();
        if d.3 && points_to(r, v, m, d.0).contains(target) {
            rest.push((m, (d.0, d.2, SymbolKind::Module)))
        } else {
            rest
        }
    }
}

/// The declarations of every module in `mods` that lead to `target`.
pub open spec fn parents_over<R: FileResolver>(
    r: &R,
    v: Seq<(FileId, FileView)>,
    target: FileId,
    mods: Seq<FileId>,
) -> Seq<(FileId, SymbolView)>
    decreases mods.len(),
{
    if mods.len() == 0 {
        seq![]
    } else {
        parents_over(r, v, target, mods.drop_last()) + match find_file(v, mods.last()) {
            Some(f) => parents_in(r, v, target, mods.last(), f.modules),
            None => seq![],
        }
    }
}

/// The first entry of `refs` whose range touches `offset`, by its text.
pub open spec fn ref_at(refs: Seq<(Seq<char>, TextRange)>, offset: u32) -> Option<Seq<char>>
    decreases refs.len(),
{
    if refs.len() == 0 {
        None
    } else if refs[0].1.touches(offset) {
        Some(refs[0].0)
    } else {
        ref_at(refs.skip(1), offset)
    }
}

/// The first module declaration whose name touches `offset`.
pub open spec fn decl_at(decls: Seq<(Seq<char>, TextRange, TextRange, bool)>, offset: u32) -> Option<
    (Seq<char>, TextRange, TextRange, bool),
>
    decreases decls.len(),
{
    if decls.len() == 0 {
        None
    } else if decls[0].1.touches(offset) {
        Some(decls[0])
    } else {
        decl_at(decls.skip(1), offset)
    }
}

/// The exact search, at most four results, that a name reference resolves by.
pub open spec fn exact_query(name: Seq<char>) -> (Seq<char>, bool, nat) {
    (name, true, 4)
}

/// What the name at `offset` of the file `id` refers to: for a name
/// reference, the symbols of that exact name; for the name of a `mod name;`,
/// the files it leads to, each as a module symbol at the file's start.
pub open spec fn resolved_at<R: FileResolver>(
    r: &R,
    v: Seq<(FileId, FileView)>,
    id: FileId,
    f: FileView,
    offset: u32,
) -> Seq<(FileId, SymbolView)> {
    match ref_at(f.name_refs, offset) {
        Some(t) => search(exact_query(t), symbol_table(v)),
        None => match decl_at(f.modules, offset) {
            Some(d) => if d.3 {
                points_to(r, v, id, d.0).map_values(
                    |t: FileId| (t, (d.0, TextRange { start: 0, end: 0 }, SymbolKind::Module)),
                )
            } else {
                seq![]
            },
            None => seq![],
        },
    }
}

/// The proposals that apply, each as a change to the file `file_id` under
/// its label, in the order given.
pub open spec fn packaged(
    file_id: FileId,
    proposals: Seq<(Seq<char>, Option<(crate::edits::EditView, Option<u32>)>)>,
) -> Seq<SourceChangeView>
    decreases proposals.len(),
{
    if proposals.len() == 0 {
        seq![]
    } else {
        let rest = packaged(file_id, proposals.drop_last());
        match proposals.last().1 {
            Some(e) => rest.push(crate::edits::local_change(file_id, proposals.last().0, e)),
            None => rest,
        }
    }
}

pub open spec fn proposals_view(p: Seq<(String, Option<LocalEdit>)>) -> Seq<
    (Seq<char>, Option<(crate::edits::EditView, Option<u32>)>),
> {
    p.map_values(
        |x: (String, Option<LocalEdit>)|
            (
                x.0@,
                match x.1 {
                    Some(e) => Some(e@),
                    None => None,
                },
            ),
    )
}

/// Whether `x` is among `s`.
fn contains_id(s: &Vec<FileId>, x: FileId) -> (r: bool)
    ensures
        r == s@.contains(x),
{
    let mut i: usize = 0;
    while i < s.len()
        invariant
            i <= s@.len(),
            forall|k: int| 0 <= k < i ==> s@[k] != x,
        decreases s@.len() - i,
    {
        if s[i] == x {
            return true;
        }
        i = i + 1;
    }
    false
}

/// The owner of the current registry. Changes replace the registry when
/// snapshots still hold it, and change it in place when none does.
#[derive(Debug)]
pub struct WorldState {
    data: Arc<WorldData>,
}

impl WorldState {
    /// The files of the current registry, in registry order.
    pub closed spec fn registry(&self) -> Seq<(FileId, FileView)> {
        self.data.view_files()
    }

    /// The nodes of the current module graph, in their order.
    pub closed spec fn modules(&self) -> Seq<FileId> {
        self.data.module_map.modules@
    }

    /// The module graph has one node for each file of the registry, and for
    /// nothing else.
    pub closed spec fn wf(&self) -> bool {
        self.data.wf()
    }

    pub fn new() -> (r: WorldState)
        ensures
            r.wf(),
            r.modules() == Seq::<FileId>::empty(),
            r.registry() == Seq::<(FileId, FileView)>::empty(),
    {
        WorldState { data: Arc::new(WorldData::new()) }
    }

    /// A snapshot of the current registry, queried through `file_resolver`.
    pub fn analysis<R: FileResolver>(&self, file_resolver: R) -> (r: World<R>)
        requires
            self.wf(),
        ensures
            r.wf(),
            r.registry() == self.registry(),
            r.modules() == self.modules(),
            r.resolver() == file_resolver,
    {
        World { file_resolver, data: share(&self.data) }
    }

    /// Sets the file `file_id` to `text`, or deletes it when `text` is `None`.
    pub fn change_file(&mut self, file_id: FileId, text: Option<File>)
        requires
            old(self).wf(),
        ensures
            final(self).wf(),
            final(self).registry() == apply_change(old(self).registry(), file_id, option_view(text)),
            final(self).modules() == apply_node_change(
                old(self).modules(),
                old(self).registry(),
                file_id,
                option_view(text),
            ),
    {
        let mut data = self.data_mut();
        data.apply(file_id, text);
        self.data = Arc::new(data);
    }

    /// Applies a batch of changes in order, as `change_file` does each.
    pub fn change_files(&mut self, changes: Vec<(FileId, Option<File>)>)
        requires
            old(self).wf(),
        ensures
            final(self).wf(),
            final(self).registry() == apply_batch(old(self).registry(), batch_view(changes@)),
            final(self).modules() == apply_batch_nodes(
                old(self).modules(),
                old(self).registry(),
                batch_view(changes@),
            ),
    {
        let ghost all = batch_view(changes@);
        let ghost start = self.registry();
        let ghost start_nodes = self.modules();
        let mut data = self.data_mut();
        let mut rest = changes;
        let ghost n = all.len();
        assert(all.take(0) =~= Seq::<(FileId, Option<FileView>)>::empty());
        while rest.len() > 0
            invariant
                n == all.len(),
                rest@.len() <= n,
                batch_view(rest@) == all.skip(n - rest@.len()),
                data.view_files() == apply_batch(start, all.take(n - rest@.len())),
                data.module_map.modules@ == apply_batch_nodes(start_nodes, start, all.take(n - rest@.len())),
                data.wf(),
            decreases rest@.len(),
        {
            let ghost k = n - rest@.len();
            let ghost before = rest@;
            let (id, text) = rest.remove(0);
            assert(batch_view(rest@) =~= batch_view(before).skip(1));
            assert(all.skip(k).skip(1) =~= all.skip(k + 1));
            assert(all[k] == batch_view(before)[0]);
            assert(all.take(k + 1).drop_last() =~= all.take(k));
            data.apply(id, text);
        }
        assert(all.take(n as int) =~= all);
        self.data = Arc::new(data);
    }

    /// The registry as a value to change, copied first if a snapshot still
    /// holds it.
    fn data_mut(&mut self) -> (r: WorldData)
        ensures
            old(self).wf() ==> r.wf(),
            r.module_map.modules@ == old(self).modules(),
            r.view_files() == old(self).registry(),
    {
        let mut held = Arc::new(WorldData::new());
        std::mem::swap(&mut self.data, &mut held);
        take_for_change(held)
    }
}

/// An immutable snapshot of a registry, with the resolver that its queries
/// use. Later changes to the `WorldState` it came from do not reach it.
pub struct World<R: FileResolver> {
    file_resolver: R,
    data: Arc<WorldData>,
}

impl<R: FileResolver> World<R> {
    /// The files of this snapshot, in registry order.
    pub closed spec fn registry(&self) -> Seq<(FileId, FileView)> {
        self.data.view_files()
    }

    /// The nodes of this snapshot's module graph, in their order.
    pub closed spec fn modules(&self) -> Seq<FileId> {
        self.data.module_map.modules@
    }

    /// The module graph has a node for each file of the registry, and for
    /// nothing else.
    pub closed spec fn wf(&self) -> bool {
        self.data.wf()
    }

    pub closed spec fn resolver(&self) -> R {
        self.file_resolver
    }

    /// The parsed file `file_id`.
    pub fn file_syntax(&self, file_id: FileId) -> (r: Result<Arc<File>, AnalysisError>)
        ensures
            match find_file(self.registry(), file_id) {
                Some(f) => r matches Ok(t) && t@ == f,
                None => r == Err::<Arc<File>, AnalysisError>(AnalysisError::NotFound(file_id)),
            },
    {
        match lookup(&self.data.files, file_id) {
            Some(f) => Ok(f),
            None => Err(AnalysisError::NotFound(file_id)),
        }
    }

    /// Where the lines of the file `id` start.
    pub fn file_line_index(&self, id: FileId) -> (r: Result<LineIndex, AnalysisError>)
        ensures
            match find_file(self.registry(), id) {
                Some(f) => r matches Ok(l) && l.newlines@ == line_starts(encode_utf8(f.text)),
                None => r == Err::<LineIndex, AnalysisError>(AnalysisError::NotFound(id)),
            },
    {
        match lookup(&self.data.files, id) {
            Some(f) => Ok(LineIndex::new(f.text.as_str())),
            None => Err(AnalysisError::NotFound(id)),
        }
    }

    /// The symbols of all files that answer `query`: in registry order, each
    /// file's in its own order, at most the query's limit of them.
    pub fn world_symbols(&self, query: Query) -> (r: Vec<(FileId, FileSymbol)>)
        ensures
            hits_view(r@) == search(query@, symbol_table(self.registry())),
    {
        search_files(&query, &self.data.files)
    }

    /// The module declarations, in any file of the graph, that lead to the
    /// file `id`: each as the declaring file and a module symbol over the
    /// declaration.
    pub fn parent_module(&self, id: FileId) -> (r: Vec<(FileId, FileSymbol)>)
        ensures
            hits_view(r@) == parents_over(&self.resolver(), self.registry(), id, self.modules()),
    {
        let ghost v = self.registry();
        let ghost mods = self.data.module_map.modules@;
        let mut res: Vec<(FileId, FileSymbol)> = Vec::new();
        let mut i: usize = 0;
        assert(mods.take(0) =~= Seq::<FileId>::empty());
        while i < self.data.module_map.modules.len()
            invariant
                v == self.registry(),
                mods == self.data.module_map.modules@,
                i <= mods.len(),
                hits_view(res@) == parents_over(&self.resolver(), v, id, mods.take(i as int)),
            decreases mods.len() - i,
        {
            let m = self.data.module_map.modules[i];
            assert(mods.take(i + 1).drop_last() =~= mods.take(i as int));
            let ghost outer = hits_view(res@);
            match lookup(&self.data.files, m) {
                Some(file) => {
                    let ghost fv = file@;
                    let mut j: usize = 0;
                    assert(fv.modules.take(0) =~= Seq::<(Seq<char>, TextRange, TextRange, bool)>::empty());
                    assert(outer + seq![] =~= outer);
                    while j < file.modules.len()
                        invariant
                            fv == file@,
                            v == self.registry(),
                            j <= fv.modules.len(),
                            hits_view(res@) == outer + parents_in(&self.resolver(), v, id, m, fv.modules.take(j as int)),
                        decreases fv.modules.len() - j,
                    {
                        let d: &ModuleDecl = &file.modules[j];
                        assert(fv.modules.take(j + 1).drop_last() =~= fv.modules.take(j as int));
                        if d.has_semi {
                            let (targets, _) = resolve_submodule(&self.file_resolver, &self.data.files, m, d.name.as_str());
                            if contains_id(&targets, id) {
                                let ghost before = res@;
                                let sym = FileSymbol { name: d.name.clone(), node_range: d.node_range, kind: SymbolKind::Module };
                                res.push((m, sym));
                                assert(hits_view(res@) =~= hits_view(before).push((m, (d.name@, d.node_range, SymbolKind::Module))));
                            }
                        }
                        j = j + 1;
                    }
                    assert(fv.modules.take(j as int) =~= fv.modules);
                },
                None => {
                    assert(outer + seq![] =~= outer);
                },
            }
            i = i + 1;
        }
        assert(mods.take(i as int) =~= mods);
        res
    }

    /// What the name at `offset` in the file `id` refers to: a name
    /// reference resolves as an exact search for its text, at most four
    /// results; the name of a `mod name;` resolves to the files it leads to.
    pub fn approximately_resolve_symbol(&self, id: FileId, offset: u32) -> (r: Result<
        Vec<(FileId, FileSymbol)>,
        AnalysisError,
    >)
        ensures
            match find_file(self.registry(), id) {
                Some(f) => r matches Ok(s) && hits_view(s@) == resolved_at(
                    &self.resolver(),
                    self.registry(),
                    id,
                    f,
                    offset,
                ),
                None => r == Err::<Vec<(FileId, FileSymbol)>, AnalysisError>(
                    AnalysisError::NotFound(id),
                ),
            },
    {
        let file = match lookup(&self.data.files, id) {
            Some(f) => f,
            None => return Err(AnalysisError::NotFound(id)),
        };
        let ghost fv = file@;
        let ghost v = self.registry();
        let mut i: usize = 0;
        assert(fv.name_refs.skip(0) =~= fv.name_refs);
        while i < file.name_refs.len()
            invariant
                fv == file@,
                v == self.registry(),
                find_file(v, id) == Some(fv),
                i <= fv.name_refs.len(),
                ref_at(fv.name_refs, offset) == ref_at(fv.name_refs.skip(i as int), offset),
            decreases fv.name_refs.len() - i,
        {
            let n: &NameRef = &file.name_refs[i];
            assert(fv.name_refs.skip(i as int)[0] == n@);
            if n.range.contains_offset(offset) {
                let text = n.text.clone();
                assert(fv.name_refs.skip(i as int).len() > 0);
                assert(ref_at(fv.name_refs.skip(i as int), offset) == Some(text@));
                return Ok(self.index_resolve(text));
            }
            assert(fv.name_refs.skip(i as int).skip(1) =~= fv.name_refs.skip(i + 1));
            i = i + 1;
        }
        assert(fv.name_refs.skip(i as int) =~= Seq::<(Seq<char>, TextRange)>::empty());
        let mut j: usize = 0;
        assert(fv.modules.skip(0) =~= fv.modules);
        while j < file.modules.len()
            invariant
                fv == file@,
                v == self.registry(),
                find_file(v, id) == Some(fv),
                ref_at(fv.name_refs, offset) is None,
                j <= fv.modules.len(),
                decl_at(fv.modules, offset) == decl_at(fv.modules.skip(j as int), offset),
            decreases fv.modules.len() - j,
        {
            let d: &ModuleDecl = &file.modules[j];
            assert(fv.modules.skip(j as int)[0] == d@);
            if d.name_range.contains_offset(offset) {
                if !d.has_semi {
                    let none: Vec<(FileId, FileSymbol)> = Vec::new();
                    assert(hits_view(none@) =~= Seq::<(FileId, SymbolView)>::empty());
                    return Ok(none);
                }
                return Ok(self.resolve_module(id, d));
            }
            assert(fv.modules.skip(j as int).skip(1) =~= fv.modules.skip(j + 1));
            j = j + 1;
        }
        assert(fv.modules.skip(j as int) =~= Seq::<(Seq<char>, TextRange, TextRange, bool)>::empty());
        let r: Vec<(FileId, FileSymbol)> = Vec::new();
        assert(hits_view(r@) =~= Seq::<(FileId, SymbolView)>::empty());
        Ok(r)
    }

    /// The symbols named exactly `name`, at most four.
    fn index_resolve(&self, name: String) -> (r: Vec<(FileId, FileSymbol)>)
        ensures
            hits_view(r@) == search(exact_query(name@), symbol_table(self.registry())),
    {
        let mut query = Query::new(name);
        query.exact();
        query.limit(4);
        self.world_symbols(query)
    }

    /// The files that the declaration `module` of the file `id` leads to,
    /// each as a module symbol at the file's start.
    fn resolve_module(&self, id: FileId, module: &ModuleDecl) -> (r: Vec<(FileId, FileSymbol)>)
        ensures
            hits_view(r@) == points_to(&self.resolver(), self.registry(), id, module.name@).map_values(
                |t: FileId| (t, (module.name@, TextRange { start: 0, end: 0 }, SymbolKind::Module)),
            ),
    {
        let (targets, _) = resolve_submodule(&self.file_resolver, &self.data.files, id, module.name.as_str());
        let ghost want = targets@.map_values(
            |t: FileId| (t, (module.name@, TextRange { start: 0, end: 0 }, SymbolKind::Module)),
        );
        let mut res: Vec<(FileId, FileSymbol)> = Vec::new();
        let mut k: usize = 0;
        while k < targets.len()
            invariant
                k <= targets@.len(),
                want == targets@.map_values(
                    |t: FileId| (t, (module.name@, TextRange { start: 0, end: 0 }, SymbolKind::Module)),
                ),
                hits_view(res@) == want.take(k as int),
            decreases targets@.len() - k,
        {
            let ghost before = res@;
            let sym = FileSymbol {
                name: module.name.clone(),
                node_range: TextRange { start: 0, end: 0 },
                kind: SymbolKind::Module,
            };
            res.push((targets[k], sym));
            assert(hits_view(res@) =~= hits_view(before).push(want[k as int]));
            assert(want.take(k + 1) =~= want.take(k as int).push(want[k as int]));
            k = k + 1;
        }
        assert(want.take(k as int) =~= want);
        res
    }

    /// The assists that apply at a position of the file `file_id`: each
    /// proposal is a label and the edit that the assist offers there, if it
    /// applies. Those that apply come back as changes of that file, in the
    /// order given, none merged with another.
    pub fn assists(&self, file_id: FileId, proposals: Vec<(String, Option<LocalEdit>)>) -> (r: Result<
        Vec<SourceChange>,
        AnalysisError,
    >)
        ensures
            find_file(self.registry(), file_id) is Some ==> (r matches Ok(c) && c@.map_values(
                |x: SourceChange| x@,
            ) == packaged(file_id, proposals_view(proposals@))),
            find_file(self.registry(), file_id) is None ==> r == Err::<Vec<SourceChange>, AnalysisError>(
                AnalysisError::NotFound(file_id),
            ),
    {
        if lookup(&self.data.files, file_id).is_none() {
            return Err(AnalysisError::NotFound(file_id));
        }
        let ghost all = proposals_view(proposals@);
        let ghost n = all.len();
        let mut rest = proposals;
        let mut res: Vec<SourceChange> = Vec::new();
        assert(all.take(0) =~= Seq::<(Seq<char>, Option<(crate::edits::EditView, Option<u32>)>)>::empty());
        while rest.len() > 0
            invariant
                n == all.len(),
                rest@.len() <= n,
                proposals_view(rest@) == all.skip(n - rest@.len()),
                res@.map_values(|x: SourceChange| x@) == packaged(file_id, all.take(n - rest@.len())),
            decreases rest@.len(),
        {
            let ghost k = n - rest@.len();
            let ghost before = rest@;
            let ghost done = res@;
            let (label, edit) = rest.remove(0);
            assert(proposals_view(rest@) =~= proposals_view(before).skip(1));
            assert(all.skip(k).skip(1) =~= all.skip(k + 1));
            assert(all[k] == proposals_view(before)[0]);
            assert(all.take(k + 1).drop_last() =~= all.take(k));
            match edit {
                Some(e) => {
                    let change = SourceChange::from_local_edit(file_id, label, e);
                    res.push(change);
                    assert(res@.map_values(|x: SourceChange| x@) =~= done.map_values(|x: SourceChange| x@).push(change@));
                },
                None => {},
            }
        }
        assert(all.take(n as int) =~= all);
        Ok(res)
    }

    /// The diagnostics of the file `file_id`: its syntax errors first, then
    /// one for each module declaration with a problem, each with its fix.
    pub fn diagnostics(&self, file_id: FileId) -> (r: Result<Vec<Diagnostic>, AnalysisError>)
        ensures
            match find_file(self.registry(), file_id) {
                Some(f) => r matches Ok(d) && diagnostics_view(d@) == file_diagnostics(
                    &self.resolver(),
                    self.registry(),
                    file_id,
                    f,
                ),
                None => r == Err::<Vec<Diagnostic>, AnalysisError>(AnalysisError::NotFound(file_id)),
            },
    {
        let file = match lookup(&self.data.files, file_id) {
            Some(f) => f,
            None => return Err(AnalysisError::NotFound(file_id)),
        };
        let ghost fv = file@;
        let ghost v = self.registry();
        let mut res: Vec<Diagnostic> = Vec::new();
        let mut i: usize = 0;
        while i < file.errors.len()
            invariant
                fv == file@,
                i <= fv.errors.len(),
                diagnostics_view(res@) == fv.errors.take(i as int).map_values(
                    |e: (TextRange, Seq<char>)| (e.0, e.1, None::<SourceChangeView>),
                ),
            decreases fv.errors.len() - i,
        {
            let ghost before = res@;
            let e = &file.errors[i];
            res.push(Diagnostic { range: e.range, message: e.msg.clone(), fix: None });
            assert(diagnostics_view(res@) =~= diagnostics_view(before).push((fv.errors[i as int].0, fv.errors[i as int].1, None::<SourceChangeView>)));
            assert(fv.errors.take(i + 1) =~= fv.errors.take(i as int).push(fv.errors[i as int]));
            i = i + 1;
        }
        assert(fv.errors.take(i as int) =~= fv.errors);
        let ghost syntax_part = diagnostics_view(res@);
        let mut j: usize = 0;
        assert(fv.modules.take(0) =~= Seq::<(Seq<char>, TextRange, TextRange, bool)>::empty());
        assert(syntax_part + seq![] =~= syntax_part);
        while j < file.modules.len()
            invariant
                fv == file@,
                v == self.registry(),
                j <= fv.modules.len(),
                diagnostics_view(res@) == syntax_part + module_problems(&self.resolver(), v, file_id, fv.modules.take(j as int)),
            decreases fv.modules.len() - j,
        {
            let d: &ModuleDecl = &file.modules[j];
            assert(fv.modules.take(j + 1).drop_last() =~= fv.modules.take(j as int));
            if d.has_semi {
                let (_, problem) = resolve_submodule(&self.file_resolver, &self.data.files, file_id, d.name.as_str());
                match problem {
                    Some(p) => {
                        let ghost before = res@;
                        let diag = diagnostic_of_problem(file_id, d.name_range, p);
                        res.push(diag);
                        assert(diagnostics_view(res@) =~= diagnostics_view(before).push(diag@));
                    },
                    None => {},
                }
            }
            j = j + 1;
        }
        assert(fv.modules.take(j as int) =~= fv.modules);
        Ok(res)
    }
}

} // verus!
