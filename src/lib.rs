use vstd::prelude::*;

pub mod syntax;
pub mod symbols;
pub mod resolver;
pub mod module_map;
pub mod registry;
pub mod edits;
pub mod world;
pub mod laws;
pub mod line_index;
pub mod tt;
pub mod tt_cursor;

pub use edits::{Diagnostic, FsOp, QuickFix, SourceChange, SourceFileEdit};
pub use module_map::{ChangeKind, ModuleMap, Problem};
pub use resolver::{FileResolver, TableResolver};
pub use symbols::Query;
pub use syntax::{AtomEdit, File, FileId, FileSymbol, LocalEdit, ModuleDecl, NameRef, SymbolKind, SyntaxError, TextRange};
pub use world::{AnalysisError, World, WorldState};
pub use line_index::LineIndex;
pub use tt::{Delimiter, Ident, Leaf, Literal, Punct, Spacing, Subtree, TokenId, TokenTree};
pub use tt_cursor::{ParseError, TtCursor};

verus! {

} // verus!
