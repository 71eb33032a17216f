use std::sync::Arc;
use vstd::prelude::*;

use crate::module_map::{
    ids_without, lemma_ids_without_contains, lemma_ids_without_no_duplicates, lemma_push_contains,
    lemma_push_no_duplicates, ChangeKind, ModuleMap,
};
use crate::syntax::{File, FileId, FileView};

verus! {

/// Relies on `Arc::clone`: a second handle on the same value, which is not
/// copied.
#[verifier::external_body]
pub fn share<T>(a: &Arc<T>) -> (r: Arc<T>)
    ensures
        *r == **a,
{
    Arc::clone(a)
}

/// Relies on `Arc::try_unwrap`: the value itself when `a` was its only
/// handle, else `a` back, untouched.
#[verifier::external_body]
fn try_take<T>(a: Arc<T>) -> (r: Result<T, Arc<T>>)
    ensures
        match r {
            Ok(v) => v == *a,
            Err(b) => *b == *a,
        },
{
    Arc::try_unwrap(a)
}

/// The registry's files over plain values, in registry order.
pub open spec fn registry_view(files: Seq<(FileId, Arc<File>)>) -> Seq<(FileId, FileView)> {
    files.map_values(|e: (FileId, Arc<File>)| (e.0, e.1@))
}

/// The file that `id` names in `v`, if any (the last entry for it).
pub open spec fn find_file(v: Seq<(FileId, FileView)>, id: FileId) -> Option<FileView>
    decreases v.len(),
{
    if v.len() == 0 {
        None
    } else if v.last().0 == id {
        Some(v.last().1)
    } else {
        find_file(v.drop_last(), id)
    }
}

/// `v` without the entries of `id`, in order.
pub open spec fn files_without(v: Seq<(FileId, FileView)>, id: FileId) -> Seq<(FileId, FileView)>
    decreases v.len(),
{
    if v.len() == 0 {
        v
    } else if v.last().0 == id {
        files_without(v.drop_last(), id)
    } else {
        files_without(v.drop_last(), id).push(v.last())
    }
}

/// The registry after one change: the old entry of `id` leaves, and the new
/// file, if there is one, comes last.
pub open spec fn apply_change(v: Seq<(FileId, FileView)>, id: FileId, text: Option<FileView>) -> Seq<
    (FileId, FileView),
> {
    match text {
        Some(f) => files_without(v, id).push((id, f)),
        None => files_without(v, id),
    }
}

/// The registry after a batch of changes, applied in order.
pub open spec fn apply_batch(v: Seq<(FileId, FileView)>, changes: Seq<(FileId, Option<FileView>)>) -> Seq<
    (FileId, FileView),
>
    decreases changes.len(),
{
    if changes.len() == 0 {
        v
    } else {
        let before = apply_batch(v, changes.drop_last());
        apply_change(before, changes.last().0, changes.last().1)
    }
}

/// The module graph's nodes after one change: an unseen file that arrives
/// is pushed, a file that leaves is taken out, and any other change leaves
/// the nodes as they were.
pub open spec fn apply_node_change(
    mods: Seq<FileId>,
    v: Seq<(FileId, FileView)>,
    id: FileId,
    text: Option<FileView>,
) -> Seq<FileId> {
    if find_file(v, id) is Some {
        if text is Some {
            mods
        } else {
            ids_without(mods, id)
        }
    } else if text is Some {
        mods.push(id)
    } else {
        mods
    }
}

/// The module graph's nodes after a batch of changes, applied in order to
/// the registry `v` and the nodes `mods`.
pub open spec fn apply_batch_nodes(
    mods: Seq<FileId>,
    v: Seq<(FileId, FileView)>,
    changes: Seq<(FileId, Option<FileView>)>,
) -> Seq<FileId>
    decreases changes.len(),
{
    if changes.len() == 0 {
        mods
    } else {
        apply_node_change(
            apply_batch_nodes(mods, v, changes.drop_last()),
            apply_batch(v, changes.drop_last()),
            changes.last().0,
            changes.last().1,
        )
    }
}

pub open spec fn option_view(f: Option<File>) -> Option<FileView> {
    match f {
        Some(f) => Some(f@),
        None => None,
    }
}

pub open spec fn batch_view(changes: Seq<(FileId, Option<File>)>) -> Seq<(FileId, Option<FileView>)> {
    changes.map_values(|c: (FileId, Option<File>)| (c.0, option_view(c.1)))
}

/// A file that leaves the registry is no longer found, and every other file
/// is found as before.
pub proof fn lemma_find_without(v: Seq<(FileId, FileView)>, id: FileId, x: FileId)
    ensures
        find_file(files_without(v, id), x) == if x == id {
            None
        } else {
            find_file(v, x)
        },
    decreases v.len(),
{
    if v.len() > 0 {
        lemma_find_without(v.drop_last(), id, x);
        if v.last().0 != id {
            let w = files_without(v.drop_last(), id).push(v.last());
            assert(w.drop_last() =~= files_without(v.drop_last(), id));
        }
    }
}

/// After a push, the pushed file is found under its id, and every other
/// file as before.
pub proof fn lemma_find_push(v: Seq<(FileId, FileView)>, id: FileId, f: FileView, x: FileId)
    ensures
        find_file(v.push((id, f)), x) == if x == id {
            Some(f)
        } else {
            find_file(v, x)
        },
{
    assert(v.push((id, f)).drop_last() =~= v);
}

/// Finds the file `id` in the registry's entries.
pub fn lookup(files: &Vec<(FileId, Arc<File>)>, id: FileId) -> (r: Option<Arc<File>>)
    ensures
        match r {
            Some(f) => find_file(registry_view(files@), id) == Some(f@),
            None => find_file(registry_view(files@), id) is None,
        },
{
    let ghost v = registry_view(files@);
    let mut found: Option<usize> = None;
    let mut i: usize = 0;
    assert(v.take(0) =~= Seq::<(FileId, FileView)>::empty());
    while i < files.len()
        invariant
            v == registry_view(files@),
            i <= v.len(),
            found matches Some(k) ==> k < i && find_file(v.take(i as int), id) == Some(v[k as int].1),
            found is None ==> find_file(v.take(i as int), id) is None,
        decreases v.len() - i,
    {
        assert(v.take(i + 1).drop_last() =~= v.take(i as int));
        if files[i].0 == id {
            found = Some(i);
        }
        i = i + 1;
    }
    assert(v.take(v.len() as int) =~= v);
    match found {
        Some(k) => Some(share(&files[k].1)),
        None => None,
    }
}

/// The registry: the files by id, and the module graph over them.
#[derive(Debug)]
pub struct WorldData {
    pub files: Vec<(FileId, Arc<File>)>,
    pub module_map: ModuleMap,
}

impl WorldData {
    pub open spec fn view_files(&self) -> Seq<(FileId, FileView)> {
        registry_view(self.files@)
    }

    /// The module graph has a node for each file of the registry, and for
    /// nothing else.
    pub open spec fn wf(&self) -> bool {
        &&& self.module_map.modules@.no_duplicates()
        &&& forall|x: FileId|
            #![trigger self.module_map.modules@.contains(x)]
            #![trigger find_file(self.view_files(), x)]
            self.module_map.modules@.contains(x) <==> find_file(self.view_files(), x) is Some
    }

    pub fn new() -> (r: WorldData)
        ensures
            r.wf(),
            r.view_files() == Seq::<(FileId, FileView)>::empty(),
            r.module_map.modules@ == Seq::<FileId>::empty(),
    {
        let r = WorldData { files: Vec::new(), module_map: ModuleMap::new() };
        assert(r.view_files() =~= Seq::<(FileId, FileView)>::empty());
        r
    }

    /// A copy of the two top-level tables; the files themselves are shared.
    pub fn duplicate(&self) -> (r: WorldData)
        ensures
            self.wf() ==> r.wf(),
            r.view_files() == self.view_files(),
            r.module_map.modules@ == self.module_map.modules@,
    {
        let mut files: Vec<(FileId, Arc<File>)> = Vec::new();
        let mut i: usize = 0;
        while i < self.files.len()
            invariant
                i <= self.files@.len(),
                registry_view(files@) == registry_view(self.files@).take(i as int),
            decreases self.files@.len() - i,
        {
            let ghost before = files@;
            files.push((self.files[i].0, share(&self.files[i].1)));
            assert(registry_view(files@) =~= registry_view(before).push(registry_view(self.files@)[i as int]));
            assert(registry_view(self.files@).take(i + 1) =~= registry_view(self.files@).take(i as int).push(registry_view(self.files@)[i as int]));
            i = i + 1;
        }
        assert(registry_view(self.files@).take(i as int) =~= registry_view(self.files@));
        WorldData { files, module_map: self.module_map.duplicate() }
    }

    /// Removes the entry of `id` from the file table.
    fn remove_file(&mut self, id: FileId)
        ensures
            final(self).view_files() == files_without(old(self).view_files(), id),
            final(self).module_map == old(self).module_map,
    {
        let ghost v = self.view_files();
        let mut kept: Vec<(FileId, Arc<File>)> = Vec::new();
        let mut i: usize = 0;
        assert(v.take(0) =~= Seq::<(FileId, FileView)>::empty());
        while i < self.files.len()
            invariant
                v == self.view_files(),
                i <= v.len(),
                registry_view(kept@) == files_without(v.take(i as int), id),
            decreases v.len() - i,
        {
            assert(v.take(i + 1).drop_last() =~= v.take(i as int));
            if self.files[i].0 != id {
                let ghost before = kept@;
                kept.push((self.files[i].0, share(&self.files[i].1)));
                assert(registry_view(kept@) =~= registry_view(before).push(v[i as int]));
            }
            i = i + 1;
        }
        assert(v.take(v.len() as int) =~= v);
        self.files = kept;
    }

    /// Applies one change: classifies it, updates the module graph, then
    /// replaces the file's entry.
    pub fn apply(&mut self, id: FileId, text: Option<File>)
        requires
            old(self).wf(),
        ensures
            final(self).wf(),
            final(self).view_files() == apply_change(old(self).view_files(), id, option_view(text)),
            final(self).module_map.modules@ == apply_node_change(
                old(self).module_map.modules@,
                old(self).view_files(),
                id,
                option_view(text),
            ),
    {
        let ghost v = self.view_files();
        let ghost mods = self.module_map.modules@;
        let present = lookup(&self.files, id).is_some();
        if present {
            if text.is_some() {
                self.module_map.update_file(id, ChangeKind::Update);
            } else {
                self.module_map.update_file(id, ChangeKind::Delete);
            }
        } else if text.is_some() {
            self.module_map.update_file(id, ChangeKind::Insert);
        }
        self.remove_file(id);
        proof {
            if present && text is None {
                lemma_ids_without_no_duplicates(mods, id);
            }
            if !present && text is Some {
                lemma_push_no_duplicates(mods, id);
            }
            assert forall|x: FileId| #[trigger] self.module_map.modules@.contains(x) <==> find_file(self.view_files(), x) is Some
                || (x == id && text is Some) by {
                lemma_find_without(v, id, x);
                lemma_ids_without_contains(mods, id, x);
                lemma_push_contains(mods, id, x);
                if x != id {
                    assert(mods.contains(x) <==> find_file(v, x) is Some);
                }
            }
        }
        match text {
            Some(f) => {
                let ghost before = self.files@;
                let ghost fv = f@;
                self.files.push((id, Arc::new(f)));
                assert(registry_view(self.files@) =~= registry_view(before).push((id, fv)));
                assert forall|x: FileId| #[trigger] find_file(self.view_files(), x) == if x == id {
                    Some(fv)
                } else {
                    find_file(registry_view(before), x)
                } by {
                    lemma_find_push(registry_view(before), id, fv, x);
                }
            },
            None => {},
        }
    }
}

/// The registry value in `a` as an owned value to change: taken over when
/// `a` was its only handle, else copied, so that other holders keep theirs.
pub fn take_for_change(a: Arc<WorldData>) -> (r: WorldData)
    ensures
        a.wf() ==> r.wf(),
        r.module_map.modules@ == a.module_map.modules@,
        r.view_files() == a.view_files(),
{
    match try_take(a) {
        Ok(d) => d,
        Err(shared) => shared.duplicate(),
    }
}

} // verus!
