use vstd::prelude::*;

use crate::syntax::{AtomEdit, FileId, LocalEdit, TextRange};

verus! {

/// A file-system operation of a change bundle.
#[derive(Debug)]
pub enum FsOp {
    /// Create a file at `path`, taken relative to the file `anchor`.
    CreateFile { anchor: FileId, path: String },
    /// Move the file `file` to `path`, taken relative to it.
    MoveFile { file: FileId, path: String },
}

pub enum FsOpView {
    CreateFile { anchor: FileId, path: Seq<char> },
    MoveFile { file: FileId, path: Seq<char> },
}

impl View for FsOp {
    type V = FsOpView;

    open spec fn view(&self) -> FsOpView {
        match self {
            FsOp::CreateFile { anchor, path } => FsOpView::CreateFile { anchor: *anchor, path: path@ },
            FsOp::MoveFile { file, path } => FsOpView::MoveFile { file: *file, path: path@ },
        }
    }
}

/// The file-system operations of a fix, by themselves.
#[derive(Debug)]
pub struct QuickFix {
    pub fs_ops: Vec<FsOp>,
}

pub type EditView = Seq<(TextRange, Seq<char>)>;

pub open spec fn edit_view(e: Seq<AtomEdit>) -> EditView {
    e.map_values(|a: AtomEdit| a@)
}

impl View for LocalEdit {
    type V = (EditView, Option<u32>);

    open spec fn view(&self) -> Self::V {
        (edit_view(self.edit@), self.cursor_position)
    }
}

/// The text edits of one file.
#[derive(Debug)]
pub struct SourceFileEdit {
    pub file_id: FileId,
    pub edits: Vec<AtomEdit>,
}

impl View for SourceFileEdit {
    type V = (FileId, EditView);

    open spec fn view(&self) -> Self::V {
        (self.file_id, edit_view(self.edits@))
    }
}

/// A named change that can be applied as a whole: text edits, file-system
/// operations in order, and where the cursor goes after it.
#[derive(Debug)]
pub struct SourceChange {
    pub label: String,
    pub source_file_edits: Vec<SourceFileEdit>,
    pub file_system_edits: Vec<FsOp>,
    pub cursor_position: Option<(FileId, u32)>,
}

pub type SourceChangeView = (Seq<char>, Seq<(FileId, EditView)>, Seq<FsOpView>, Option<(FileId, u32)>);

impl View for SourceChange {
    type V = SourceChangeView;

    open spec fn view(&self) -> SourceChangeView {
        (
            self.label@,
            self.source_file_edits@.map_values(|e: SourceFileEdit| e@),
            self.file_system_edits@.map_values(|o: FsOp| o@),
            self.cursor_position,
        )
    }
}

/// The change that applies `edit` to the file `file_id`, under `label`.
pub open spec fn local_change(file_id: FileId, label: Seq<char>, edit: (EditView, Option<u32>)) -> SourceChangeView {
    (
        label,
        seq![(file_id, edit.0)],
        seq![],
        match edit.1 {
            Some(o) => Some((file_id, o)),
            None => None,
        },
    )
}

impl SourceChange {
    /// Packages an edit of one file as a change bundle.
    pub fn from_local_edit(file_id: FileId, label: String, edit: LocalEdit) -> (r: SourceChange)
        ensures
            r@ == local_change(file_id, label@, edit@),
    {
        let cursor_position = match edit.cursor_position {
            Some(o) => Some((file_id, o)),
            None => None,
        };
        let ghost ev = edit_view(edit.edit@);
        let mut source_file_edits: Vec<SourceFileEdit> = Vec::new();
        source_file_edits.push(SourceFileEdit { file_id, edits: edit.edit });
        let r = SourceChange {
            label,
            source_file_edits,
            file_system_edits: Vec::new(),
            cursor_position,
        };
        assert(r@.1 =~= seq![(file_id, ev)]);
        assert(r@.2 =~= Seq::<FsOpView>::empty());
        r
    }
}

/// A finding about a file: where, what, and a fix if one is known.
#[derive(Debug)]
pub struct Diagnostic {
    pub range: TextRange,
    pub message: String,
    pub fix: Option<SourceChange>,
}

pub type DiagnosticView = (TextRange, Seq<char>, Option<SourceChangeView>);

impl View for Diagnostic {
    type V = DiagnosticView;

    open spec fn view(&self) -> DiagnosticView {
        (
            self.range,
            self.message@,
            match self.fix {
                Some(f) => Some(f@),
                None => None,
            },
        )
    }
}

} // verus!
