use vstd::prelude::*;

verus! {

/// Handle of a file in the registry; equal and ordered by value.
#[derive(Clone, Copy, Debug, PartialEq, Eq, Structural, PartialOrd, Ord, Hash)]
pub struct FileId(pub u32);

/// A half-open range `[start, end)` of offsets into a file's text.
#[derive(Clone, Copy, Debug, PartialEq, Eq, Structural)]
pub struct TextRange {
    pub start: u32,
    pub end: u32,
}

impl TextRange {
    /// Whether `offset` lies on this range, its end included (a cursor right
    /// after a token still touches it).
    pub open spec fn touches(self, offset: u32) -> bool {
        self.start <= offset && offset <= self.end
    }

    pub fn contains_offset(&self, offset: u32) -> (r: bool)
        ensures
            r == self.touches(offset),
    {
        self.start <= offset && offset <= self.end
    }
}

/// What kind of item a symbol names.
#[derive(Clone, Copy, Debug, PartialEq, Eq, Structural)]
pub enum SymbolKind {
    Module,
    Function,
    Struct,
    Enum,
    Trait,
    TypeAlias,
    Const,
    Static,
}

/// A symbol declared in a file: its name, the range of the declaring node and
/// its kind.
#[derive(Debug)]
pub struct FileSymbol {
    pub name: String,
    pub node_range: TextRange,
    pub kind: SymbolKind,
}

impl View for FileSymbol {
    type V = (Seq<char>, TextRange, SymbolKind);

    open spec fn view(&self) -> Self::V {
        (self.name@, self.node_range, self.kind)
    }
}

impl FileSymbol {
    pub fn duplicate(&self) -> (r: FileSymbol)
        ensures
            r@ == self@,
    {
        FileSymbol { name: self.name.clone(), node_range: self.node_range, kind: self.kind }
    }
}

/// A `mod name` declaration: the declared name, the range of the name token,
/// the range of the whole declaration, and whether it ends in `;` (its body
/// then lives in another file).
#[derive(Debug)]
pub struct ModuleDecl {
    pub name: String,
    pub name_range: TextRange,
    pub node_range: TextRange,
    pub has_semi: bool,
}

impl View for ModuleDecl {
    type V = (Seq<char>, TextRange, TextRange, bool);

    open spec fn view(&self) -> Self::V {
        (self.name@, self.name_range, self.node_range, self.has_semi)
    }
}

/// A name-reference token: its text and range.
#[derive(Debug)]
pub struct NameRef {
    pub text: String,
    pub range: TextRange,
}

impl View for NameRef {
    type V = (Seq<char>, TextRange);

    open spec fn view(&self) -> Self::V {
        (self.text@, self.range)
    }
}

/// An error found by the parser: where, and what.
#[derive(Debug)]
pub struct SyntaxError {
    pub range: TextRange,
    pub msg: String,
}

impl View for SyntaxError {
    type V = (TextRange, Seq<char>);

    open spec fn view(&self) -> Self::V {
        (self.range, self.msg@)
    }
}

/// A parsed file, as the parser hands it over: the text, the symbols it
/// declares, in declaration order, its module declarations, its name
/// references, and the syntax errors found in it.
#[derive(Debug)]
pub struct File {
    pub text: String,
    pub symbols: Vec<FileSymbol>,
    pub modules: Vec<ModuleDecl>,
    pub name_refs: Vec<NameRef>,
    pub errors: Vec<SyntaxError>,
}

/// The content of a parsed file, over plain values.
pub struct FileView {
    pub text: Seq<char>,
    pub symbols: Seq<(Seq<char>, TextRange, SymbolKind)>,
    pub modules: Seq<(Seq<char>, TextRange, TextRange, bool)>,
    pub name_refs: Seq<(Seq<char>, TextRange)>,
    pub errors: Seq<(TextRange, Seq<char>)>,
}

impl View for File {
    type V = FileView;

    open spec fn view(&self) -> FileView {
        FileView {
            text: self.text@,
            symbols: self.symbols@.map_values(|s: FileSymbol| s@),
            modules: self.modules@.map_values(|m: ModuleDecl| m@),
            name_refs: self.name_refs@.map_values(|n: NameRef| n@),
            errors: self.errors@.map_values(|e: SyntaxError| e@),
        }
    }
}

/// One edit of a text: replace `delete` with `insert`.
#[derive(Debug)]
pub struct AtomEdit {
    pub delete: TextRange,
    pub insert: String,
}

impl View for AtomEdit {
    type V = (TextRange, Seq<char>);

    open spec fn view(&self) -> Self::V {
        (self.delete, self.insert@)
    }
}

/// An edit of one file, with where the cursor goes after it.
#[derive(Debug)]
pub struct LocalEdit {
    pub edit: Vec<AtomEdit>,
    pub cursor_position: Option<u32>,
}

} // verus!
