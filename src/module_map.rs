use std::sync::Arc;
use vstd::prelude::*;

use crate::resolver::{FileResolver, same_text};
use crate::registry::{find_file, lookup, registry_view};
use crate::syntax::{File, FileId, FileView};

verus! {

/// How a file changed in a batch.
#[derive(Clone, Copy, Debug, PartialEq, Eq, Structural)]
pub enum ChangeKind {
    Insert,
    Update,
    Delete,
}

/// The nodes of the module graph, one per file of the registry. The edges of
/// a node are worked out from its file's declarations when a query needs
/// them, so an updated file never shows stale edges.
#[derive(Debug)]
pub struct ModuleMap {
    pub modules: Vec<FileId>,
}

/// `s` without the entries equal to `id`, in order.
pub open spec fn ids_without(s: Seq<FileId>, id: FileId) -> Seq<FileId>
    decreases s.len(),
{
    if s.len() == 0 {
        s
    } else if s.last() == id {
        ids_without(s.drop_last(), id)
    } else {
        ids_without(s.drop_last(), id).push(s.last())
    }
}

/// What a sequence holds after a push: what it held, and the new item.
pub proof fn lemma_push_contains<A>(s: Seq<A>, a: A, x: A)
    ensures
        s.push(a).contains(x) <==> (s.contains(x) || a == x),
{
    let t = s.push(a);
    if t.contains(x) {
        let k = choose|k: int| 0 <= k < t.len() && t[k] == x;
        if k < s.len() {
            assert(s[k] == x);
        }
    }
    if s.contains(x) {
        let k = choose|k: int| 0 <= k < s.len() && s[k] == x;
        assert(t[k] == x);
    }
    if a == x {
        assert(t[s.len() as int] == x);
    }
}

/// Taking `id` out leaves everything else, and nothing of `id`.
pub proof fn lemma_ids_without_contains(s: Seq<FileId>, id: FileId, x: FileId)
    ensures
        ids_without(s, id).contains(x) <==> (s.contains(x) && x != id),
    decreases s.len(),
{
    if s.len() > 0 {
        let p = s.drop_last();
        lemma_ids_without_contains(p, id, x);
        assert(s =~= p.push(s.last()));
        lemma_push_contains(p, s.last(), x);
        if s.last() != id {
            lemma_push_contains(ids_without(p, id), s.last(), x);
        }
    }
}

/// Pushing an item that is not there yet keeps a sequence free of repeats.
pub proof fn lemma_push_no_duplicates<A>(s: Seq<A>, a: A)
    requires
        s.no_duplicates(),
        !s.contains(a),
    ensures
        s.push(a).no_duplicates(),
{
    let t = s.push(a);
    assert forall|i: int, j: int| 0 <= i < t.len() && 0 <= j < t.len() && i != j implies t[i] != t[j] by {
        if i < s.len() && j < s.len() {
            assert(t[i] == s[i] && t[j] == s[j]);
        } else if i < s.len() {
            assert(t[i] == s[i]);
        } else if j < s.len() {
            assert(t[j] == s[j]);
        }
    }
}

/// Taking `id` out keeps a sequence free of repeats.
pub proof fn lemma_ids_without_no_duplicates(s: Seq<FileId>, id: FileId)
    requires
        s.no_duplicates(),
    ensures
        ids_without(s, id).no_duplicates(),
    decreases s.len(),
{
    if s.len() > 0 {
        let p = s.drop_last();
        assert(p.no_duplicates()) by {
            assert forall|i: int, j: int| 0 <= i < p.len() && 0 <= j < p.len() && i != j implies p[i] != p[j] by {
                assert(p[i] == s[i] && p[j] == s[j]);
            }
        }
        lemma_ids_without_no_duplicates(p, id);
        if s.last() != id {
            lemma_ids_without_contains(p, id, s.last());
            if p.contains(s.last()) {
                let k = choose|k: int| 0 <= k < p.len() && p[k] == s.last();
                assert(s[k] == s[s.len() - 1]);
            }
            lemma_push_no_duplicates(ids_without(p, id), s.last());
        }
    }
}

impl ModuleMap {
    pub fn new() -> (r: ModuleMap)
        ensures
            r.modules@ == Seq::<FileId>::empty(),
    {
        ModuleMap { modules: Vec::new() }
    }

    pub fn duplicate(&self) -> (r: ModuleMap)
        ensures
            r.modules@ == self.modules@,
    {
        ModuleMap { modules: self.modules.clone() }
    }

    /// Brings the graph up to date with one change of `id`: an inserted file
    /// becomes a node with no edges yet, an updated one keeps its node (its
    /// edges are worked out afresh when asked for), a deleted one leaves with
    /// every edge to it.
    pub fn update_file(&mut self, id: FileId, kind: ChangeKind)
        ensures
            kind == ChangeKind::Insert ==> final(self).modules@ == old(self).modules@.push(id),
            kind == ChangeKind::Update ==> final(self).modules@ == old(self).modules@,
            kind == ChangeKind::Delete ==> final(self).modules@ == ids_without(old(self).modules@, id),
    {
        match kind {
            ChangeKind::Insert => {
                self.modules.push(id);
            },
            ChangeKind::Update => {},
            ChangeKind::Delete => {
                let ghost s = self.modules@;
                let mut kept: Vec<FileId> = Vec::new();
                let mut i: usize = 0;
                assert(s.take(0) =~= Seq::<FileId>::empty());
                while i < self.modules.len()
                    invariant
                        s == self.modules@,
                        i <= s.len(),
                        kept@ == ids_without(s.take(i as int), id),
                    decreases s.len() - i,
                {
                    assert(s.take(i + 1).drop_last() =~= s.take(i as int));
                    if self.modules[i] != id {
                        kept.push(self.modules[i]);
                    }
                    i = i + 1;
                }
                assert(s.take(s.len() as int) =~= s);
                self.modules = kept;
            },
        }
    }
}

/// `rel` appended to `base` as `relative_path` does it: one `/` between
/// them, a leading `/` of `rel` dropped.
pub open spec fn path_join(base: Seq<char>, rel: Seq<char>) -> Seq<char> {
    let tail = if rel.len() > 0 && rel[0] == '/' {
        rel.skip(1)
    } else {
        rel
    };
    if base.len() > 0 && base.last() != '/' {
        base + seq!['/'] + tail
    } else {
        base + tail
    }
}

/// Relies on `relative_path::RelativePath::join`: pushes `rel` onto a copy
/// of `base`, with the separator rule of `path_join`.
#[verifier::external_body]
pub fn join_path(base: &str, rel: &str) -> (r: String)
    ensures
        r@ == path_join(base@, rel@),
{
    relative_path::RelativePath::new(base).join(rel).into_string()
}

/// Where a submodule `name` of a file is looked for first: beside the file.
pub open spec fn file_mod_path(name: Seq<char>) -> Seq<char> {
    "../"@ + name + ".rs"@
}

/// Where it is looked for next: in a directory of its own.
pub open spec fn dir_mod_path(name: Seq<char>) -> Seq<char> {
    "../"@ + name + "/mod.rs"@
}

/// Only `mod.rs`, `lib.rs` and `main.rs` own the directory they stand in,
/// and so may declare submodules that live in other files.
pub open spec fn dir_owner(stem: Seq<char>) -> bool {
    stem == "mod"@ || stem == "lib"@ || stem == "main"@
}

/// The file that `path` from `from` leads to, if the registry `v` holds it.
pub open spec fn present_target<R: FileResolver>(
    r: &R,
    v: Seq<(FileId, FileView)>,
    from: FileId,
    path: Seq<char>,
) -> Seq<FileId> {
    match r.resolved(from, path) {
        Some(t) => if find_file(v, t) is Some {
            seq![t]
        } else {
            seq![]
        },
        None => seq![],
    }
}

/// The files that the declaration `mod name;` in `from` resolves to.
pub open spec fn points_to<R: FileResolver>(
    r: &R,
    v: Seq<(FileId, FileView)>,
    from: FileId,
    name: Seq<char>,
) -> Seq<FileId> {
    if dir_owner(r.stem_of(from)) {
        present_target(r, v, from, file_mod_path(name)) + present_target(r, v, from, dir_mod_path(name))
    } else {
        seq![]
    }
}

/// What is wrong with a declaration `mod name;`.
#[derive(Debug)]
pub enum Problem {
    /// No file is there for it; `candidate` is where one would go.
    UnresolvedModule { candidate: String },
    /// The declaring file does not own a directory: it would have to move to
    /// `move_to`, and the submodule would then go to `candidate` from there.
    NotDirOwner { move_to: String, candidate: String },
}

pub enum ProblemView {
    UnresolvedModule { candidate: Seq<char> },
    NotDirOwner { move_to: Seq<char>, candidate: Seq<char> },
}

impl View for Problem {
    type V = ProblemView;

    open spec fn view(&self) -> ProblemView {
        match self {
            Problem::UnresolvedModule { candidate } => ProblemView::UnresolvedModule {
                candidate: candidate@,
            },
            Problem::NotDirOwner { move_to, candidate } => ProblemView::NotDirOwner {
                move_to: move_to@,
                candidate: candidate@,
            },
        }
    }
}

/// The problem of a declaration `mod name;` in `from`, if it has one.
pub open spec fn problem_of<R: FileResolver>(
    r: &R,
    v: Seq<(FileId, FileView)>,
    from: FileId,
    name: Seq<char>,
) -> Option<ProblemView> {
    if dir_owner(r.stem_of(from)) {
        if points_to(r, v, from, name).len() == 0 {
            Some(ProblemView::UnresolvedModule { candidate: file_mod_path(name) })
        } else {
            None
        }
    } else {
        Some(
            ProblemView::NotDirOwner {
                move_to: dir_mod_path(r.stem_of(from)),
                candidate: file_mod_path(name),
            },
        )
    }
}

/// `"../" + name + suffix`.
fn sibling_path(name: &str, suffix: &str) -> (r: String)
    ensures
        r@ == "../"@ + name@ + suffix@,
{
    let mut p = String::from_str("../");
    p.append(name);
    p.append(suffix);
    p
}

/// Whether a stem names a file that owns its directory.
pub fn is_dir_owner(stem: &str) -> (r: bool)
    ensures
        r == dir_owner(stem@),
{
    same_text(stem, "mod") || same_text(stem, "lib") || same_text(stem, "main")
}

/// The file that `path` from `from` leads to, kept only if the registry
/// holds it.
fn resolve_present<R: FileResolver>(
    resolver: &R,
    files: &Vec<(FileId, Arc<File>)>,
    from: FileId,
    path: &str,
) -> (r: Vec<FileId>)
    ensures
        r@ == present_target(resolver, registry_view(files@), from, path@),
{
    let mut r: Vec<FileId> = Vec::new();
    match resolver.resolve(from, path) {
        Some(t) => {
            if lookup(files, t).is_some() {
                r.push(t);
            }
        },
        None => {},
    }
    assert(r@ =~= present_target(resolver, registry_view(files@), from, path@));
    r
}

/// Resolves the declaration `mod name;` of the file `from`: the files it
/// leads to, and its problem if it has one.
pub fn resolve_submodule<R: FileResolver>(
    resolver: &R,
    files: &Vec<(FileId, Arc<File>)>,
    from: FileId,
    name: &str,
) -> (r: (Vec<FileId>, Option<Problem>))
    ensures
        r.0@ == points_to(resolver, registry_view(files@), from, name@),
        match r.1 {
            Some(p) => problem_of(resolver, registry_view(files@), from, name@) == Some(p@),
            None => problem_of(resolver, registry_view(files@), from, name@) is None,
        },
{
    let stem = resolver.file_stem(from);
    let file_mod = sibling_path(name, ".rs");
    if is_dir_owner(stem.as_str()) {
        let dir_mod = sibling_path(name, "/mod.rs");
        let mut found = resolve_present(resolver, files, from, file_mod.as_str());
        let mut more = resolve_present(resolver, files, from, dir_mod.as_str());
        found.append(&mut more);
        if found.len() == 0 {
            (found, Some(Problem::UnresolvedModule { candidate: file_mod }))
        } else {
            (found, None)
        }
    } else {
        let move_to = sibling_path(stem.as_str(), "/mod.rs");
        (Vec::new(), Some(Problem::NotDirOwner { move_to, candidate: file_mod }))
    }
}

} // verus!
