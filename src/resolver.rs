use vstd::prelude::*;

use crate::syntax::FileId;

verus! {

/// The host's view of where files lie: the stem of a file's name, and which
/// file a path relative to a file leads to. Both must be deterministic for a
/// given registry.
pub trait FileResolver {
    /// The stem of `id`'s file name (`lib` for `lib.rs`).
    spec fn stem_of(&self, id: FileId) -> Seq<char>;

    /// The file that `path`, taken relative to the file `id`, leads to.
    spec fn resolved(&self, id: FileId, path: Seq<char>) -> Option<FileId>;

    fn file_stem(&self, id: FileId) -> (r: String)
        ensures
            r@ == self.stem_of(id),
    ;

    fn resolve(&self, id: FileId, path: &str) -> (r: Option<FileId>)
        ensures
            r == self.resolved(id, path@),
    ;
}

/// Whether two texts are equal, character by character.
pub fn same_text(a: &str, b: &str) -> (r: bool)
    ensures
        r == (a@ == b@),
{
    let n: usize = a.unicode_len();
    if n != b.unicode_len() {
        return false;
    }
    let mut i: usize = 0;
    while i < n
        invariant
            n == a@.len(),
            n == b@.len(),
            i <= n,
            forall|k: int| 0 <= k < i ==> a@[k] == b@[k],
        decreases n - i,
    {
        if a.get_char(i) != b.get_char(i) {
            return false;
        }
        i = i + 1;
    }
    assert(a@ =~= b@);
    true
}

/// The stem of `id` in a stem table: the last entry for `id`, or empty.
pub open spec fn stem_in(s: Seq<(FileId, Seq<char>)>, id: FileId) -> Seq<char>
    decreases s.len(),
{
    if s.len() == 0 {
        Seq::empty()
    } else if s.last().0 == id {
        s.last().1
    } else {
        stem_in(s.drop_last(), id)
    }
}

/// Where `path` from `id` leads in a link table: the last entry for the pair.
pub open spec fn link_in(s: Seq<(FileId, Seq<char>, FileId)>, id: FileId, path: Seq<char>) -> Option<
    FileId,
>
    decreases s.len(),
{
    if s.len() == 0 {
        None
    } else if s.last().0 == id && s.last().1 == path {
        Some(s.last().2)
    } else {
        link_in(s.drop_last(), id, path)
    }
}

/// A resolver that answers from two tables filled by the host: the stem of
/// each file, and for each file and relative path the file it leads to.
#[derive(Debug)]
pub struct TableResolver {
    pub stems: Vec<(FileId, String)>,
    pub links: Vec<(FileId, String, FileId)>,
}

impl TableResolver {
    pub open spec fn stem_table(&self) -> Seq<(FileId, Seq<char>)> {
        self.stems@.map_values(|e: (FileId, String)| (e.0, e.1@))
    }

    pub open spec fn link_table(&self) -> Seq<(FileId, Seq<char>, FileId)> {
        self.links@.map_values(|e: (FileId, String, FileId)| (e.0, e.1@, e.2))
    }

    pub fn new() -> (r: TableResolver)
        ensures
            r.stem_table() == Seq::<(FileId, Seq<char>)>::empty(),
            r.link_table() == Seq::<(FileId, Seq<char>, FileId)>::empty(),
    {
        let r = TableResolver { stems: Vec::new(), links: Vec::new() };
        assert(r.stem_table() =~= Seq::<(FileId, Seq<char>)>::empty());
        assert(r.link_table() =~= Seq::<(FileId, Seq<char>, FileId)>::empty());
        r
    }

    /// Records that `id`'s file name has the stem `stem`.
    pub fn add_file(&mut self, id: FileId, stem: String)
        ensures
            final(self).stem_table() == old(self).stem_table().push((id, stem@)),
            final(self).link_table() == old(self).link_table(),
    {
        let ghost s = stem@;
        self.stems.push((id, stem));
        assert(self.stem_table() =~= old(self).stem_table().push((id, s)));
        assert(self.link_table() =~= old(self).link_table());
    }

    /// Records that `path`, relative to `from`, leads to `to`.
    pub fn add_link(&mut self, from: FileId, path: String, to: FileId)
        ensures
            final(self).link_table() == old(self).link_table().push((from, path@, to)),
            final(self).stem_table() == old(self).stem_table(),
    {
        let ghost p = path@;
        self.links.push((from, path, to));
        assert(self.link_table() =~= old(self).link_table().push((from, p, to)));
        assert(self.stem_table() =~= old(self).stem_table());
    }
}

impl FileResolver for TableResolver {
    open spec fn stem_of(&self, id: FileId) -> Seq<char> {
        stem_in(self.stem_table(), id)
    }

    open spec fn resolved(&self, id: FileId, path: Seq<char>) -> Option<FileId> {
        link_in(self.link_table(), id, path)
    }

    fn file_stem(&self, id: FileId) -> (r: String) {
        let ghost t = self.stem_table();
        let mut found: Option<usize> = None;
        let mut i: usize = 0;
        assert(t.take(0) =~= Seq::<(FileId, Seq<char>)>::empty());
        while i < self.stems.len()
            invariant
                t == self.stem_table(),
                i <= t.len(),
                found matches Some(k) ==> k < i && stem_in(t.take(i as int), id) == t[k as int].1,
                found is None ==> stem_in(t.take(i as int), id) == Seq::<char>::empty(),
            decreases t.len() - i,
        {
            assert(t.take(i + 1).drop_last() =~= t.take(i as int));
            if self.stems[i].0 == id {
                found = Some(i);
            }
            i = i + 1;
        }
        assert(t.take(t.len() as int) =~= t);
        match found {
            Some(k) => self.stems[k].1.clone(),
            None => String::new(),
        }
    }

    fn resolve(&self, id: FileId, path: &str) -> (r: Option<FileId>) {
        let ghost t = self.link_table();
        let mut found: Option<FileId> = None;
        let mut i: usize = 0;
        assert(t.take(0) =~= Seq::<(FileId, Seq<char>, FileId)>::empty());
        while i < self.links.len()
            invariant
                t == self.link_table(),
                i <= t.len(),
                found == link_in(t.take(i as int), id, path@),
            decreases t.len() - i,
        {
            assert(t.take(i + 1).drop_last() =~= t.take(i as int));
            let entry = &self.links[i];
            if entry.0 == id && same_text(entry.1.as_str(), path) {
                found = Some(entry.2);
            }
            i = i + 1;
        }
        assert(t.take(t.len() as int) =~= t);
        found
    }
}

} // verus!
