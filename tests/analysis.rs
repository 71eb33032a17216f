use libanalysis::{
    AnalysisError, AtomEdit, File, FileId, FileResolver, FileSymbol, FsOp, LocalEdit, ModuleDecl, NameRef, Query,
    SymbolKind, SyntaxError, TableResolver, TextRange, WorldState,
};

fn range(start: u32, end: u32) -> TextRange {
    TextRange { start, end }
}

fn symbol(name: &str, start: u32, end: u32, kind: SymbolKind) -> FileSymbol {
    FileSymbol { name: name.to_string(), node_range: range(start, end), kind }
}

fn module(name: &str, start: u32, has_semi: bool) -> ModuleDecl {
    let len = name.len() as u32;
    ModuleDecl {
        name: name.to_string(),
        name_range: range(start + 4, start + 4 + len),
        node_range: range(start, start + 4 + len + 1),
        has_semi,
    }
}

fn file(text: &str, symbols: Vec<FileSymbol>, modules: Vec<ModuleDecl>) -> File {
    File { text: text.to_string(), symbols, modules, name_refs: Vec::new(), errors: Vec::new() }
}

fn fn_file(text: &str, name: &str) -> File {
    file(text, vec![symbol(name, 0, text.len() as u32, SymbolKind::Function)], Vec::new())
}

fn stems(pairs: &[(u32, &str)]) -> TableResolver {
    let mut r = TableResolver::new();
    for (id, stem) in pairs {
        r.add_file(FileId(*id), stem.to_string());
    }
    r
}

#[test]
fn snapshot_keeps_its_registry() {
    let mut state = WorldState::new();
    state.change_file(FileId(1), Some(fn_file("fn foo() {}", "foo")));
    let world = state.analysis(stems(&[(1, "lib")]));
    let before = world.file_syntax(FileId(1)).unwrap().text.clone();
    let hits_before = world.world_symbols(Query::new("foo".to_string())).len();
    state.change_files(vec![
        (FileId(1), Some(fn_file("fn bar() {}", "bar"))),
        (FileId(2), Some(fn_file("fn foo() {}", "foo"))),
    ]);
    assert_eq!(world.file_syntax(FileId(1)).unwrap().text, before);
    assert_eq!(world.world_symbols(Query::new("foo".to_string())).len(), hits_before);
    assert_eq!(world.file_syntax(FileId(2)).unwrap_err(), AnalysisError::NotFound(FileId(2)));
    let fresh = state.analysis(stems(&[(1, "lib")]));
    assert_eq!(fresh.file_syntax(FileId(1)).unwrap().text, "fn bar() {}");
    assert_eq!(fresh.world_symbols(Query::new("foo".to_string())).len(), 1);
}

#[test]
fn read_after_insert_is_the_inserted_file() {
    let mut state = WorldState::new();
    state.change_file(FileId(7), Some(fn_file("fn main() {}", "main")));
    let world = state.analysis(TableResolver::new());
    let f = world.file_syntax(FileId(7)).unwrap();
    assert_eq!(f.text, "fn main() {}");
    assert_eq!(f.symbols.len(), 1);
    assert_eq!(f.symbols[0].name, "main");
    assert_eq!(f.symbols[0].node_range, range(0, 12));
}

#[test]
fn delete_then_reinsert() {
    let mut state = WorldState::new();
    state.change_file(FileId(3), Some(fn_file("fn old() {}", "old")));
    state.change_file(FileId(3), None);
    let world = state.analysis(TableResolver::new());
    assert_eq!(world.file_syntax(FileId(3)).unwrap_err(), AnalysisError::NotFound(FileId(3)));
    state.change_file(FileId(3), Some(fn_file("fn new() {}", "new")));
    let world = state.analysis(TableResolver::new());
    let f = world.file_syntax(FileId(3)).unwrap();
    assert_eq!(f.text, "fn new() {}");
    assert!(world.world_symbols(Query::new("old".to_string())).is_empty());
    assert_eq!(world.world_symbols(Query::new("new".to_string())).len(), 1);
}

#[test]
fn update_replaces_the_file() {
    let mut state = WorldState::new();
    state.change_file(FileId(1), Some(fn_file("fn a() {}", "a")));
    state.change_file(FileId(1), Some(fn_file("fn b() {}", "b")));
    let world = state.analysis(TableResolver::new());
    assert_eq!(world.file_syntax(FileId(1)).unwrap().text, "fn b() {}");
    assert!(world.world_symbols(Query::new("a".to_string())).is_empty());
}

#[test]
fn unresolved_module_gets_a_create_fix() {
    let mut state = WorldState::new();
    state.change_file(FileId(1), Some(file("mod b;", Vec::new(), vec![module("b", 0, true)])));
    let world = state.analysis(stems(&[(1, "lib")]));
    let diags = world.diagnostics(FileId(1)).unwrap();
    assert_eq!(diags.len(), 1);
    assert_eq!(diags[0].message, "unresolved module");
    assert_eq!(diags[0].range, range(4, 5));
    let fix = diags[0].fix.as_ref().unwrap();
    assert_eq!(fix.label, "create module");
    assert_eq!(fix.file_system_edits.len(), 1);
    match &fix.file_system_edits[0] {
        FsOp::CreateFile { anchor, path } => {
            assert_eq!(*anchor, FileId(1));
            assert_eq!(path, "../b.rs");
        }
        other => panic!("unexpected {:?}", other),
    }
}

#[test]
fn resolved_module_has_no_problem() {
    let mut state = WorldState::new();
    state.change_file(FileId(1), Some(file("mod b;", Vec::new(), vec![module("b", 0, true)])));
    state.change_file(FileId(2), Some(file("", Vec::new(), Vec::new())));
    let mut resolver = stems(&[(1, "lib"), (2, "b")]);
    resolver.add_link(FileId(1), "../b.rs".to_string(), FileId(2));
    let world = state.analysis(resolver);
    assert!(world.diagnostics(FileId(1)).unwrap().is_empty());
    let parents = world.parent_module(FileId(2));
    assert_eq!(parents.len(), 1);
    assert_eq!(parents[0].0, FileId(1));
    assert_eq!(parents[0].1.name, "b");
    assert_eq!(parents[0].1.node_range, range(0, 6));
    assert_eq!(parents[0].1.kind, SymbolKind::Module);
    let targets = world.approximately_resolve_symbol(FileId(1), 4).unwrap();
    assert_eq!(targets.len(), 1);
    assert_eq!(targets[0].0, FileId(2));
    assert_eq!(targets[0].1.name, "b");
    assert_eq!(targets[0].1.node_range, range(0, 0));
}

#[test]
fn module_in_non_owner_file_gets_a_move_fix() {
    let mut state = WorldState::new();
    state.change_file(FileId(1), Some(file("mod b;", Vec::new(), vec![module("b", 0, true)])));
    state.change_file(FileId(2), Some(file("mod c;", Vec::new(), vec![module("c", 0, true)])));
    let mut resolver = stems(&[(1, "lib"), (2, "b")]);
    resolver.add_link(FileId(1), "../b.rs".to_string(), FileId(2));
    let world = state.analysis(resolver);
    let diags = world.diagnostics(FileId(2)).unwrap();
    assert_eq!(diags.len(), 1);
    assert_eq!(diags[0].message, "can't declare module at this location");
    let fix = diags[0].fix.as_ref().unwrap();
    assert_eq!(fix.label, "move file and create module");
    assert_eq!(fix.file_system_edits.len(), 2);
    match &fix.file_system_edits[0] {
        FsOp::MoveFile { file, path } => {
            assert_eq!(*file, FileId(2));
            assert_eq!(path, "../b/mod.rs");
        }
        other => panic!("unexpected {:?}", other),
    }
    match &fix.file_system_edits[1] {
        FsOp::CreateFile { anchor, path } => {
            assert_eq!(*anchor, FileId(2));
            assert_eq!(path, "../b/mod.rs/../c.rs");
        }
        other => panic!("unexpected {:?}", other),
    }
}

#[test]
fn syntax_errors_come_before_module_problems() {
    let mut state = WorldState::new();
    let mut f = file("mod b; fn", Vec::new(), vec![module("b", 0, true), module("inline", 7, false)]);
    f.errors.push(SyntaxError { range: range(7, 9), msg: "expected a name".to_string() });
    state.change_file(FileId(1), Some(f));
    let world = state.analysis(stems(&[(1, "main")]));
    let diags = world.diagnostics(FileId(1)).unwrap();
    assert_eq!(diags.len(), 2);
    assert_eq!(diags[0].message, "expected a name");
    assert!(diags[0].fix.is_none());
    assert_eq!(diags[1].message, "unresolved module");
    assert_eq!(world.diagnostics(FileId(9)).unwrap_err(), AnalysisError::NotFound(FileId(9)));
}

#[test]
fn exact_search_over_five_files() {
    let mut state = WorldState::new();
    state.change_file(FileId(1), Some(fn_file("fn foo() {}", "foo")));
    state.change_file(FileId(2), Some(fn_file("fn foobar() {}", "foobar")));
    state.change_file(FileId(3), Some(fn_file("fn foo() {}", "foo")));
    state.change_file(FileId(4), Some(fn_file("fn bar() {}", "bar")));
    state.change_file(FileId(5), Some(fn_file("fn foo() {}", "foo")));
    let world = state.analysis(TableResolver::new());
    let mut query = Query::new("foo".to_string());
    query.exact();
    query.limit(4);
    let hits = world.world_symbols(query);
    assert_eq!(hits.len(), 3);
    assert!(hits.iter().all(|(_, s)| s.name == "foo"));
    let ids: Vec<FileId> = hits.iter().map(|(id, _)| *id).collect();
    assert_eq!(ids, vec![FileId(1), FileId(3), FileId(5)]);
    let mut capped = Query::new("foo".to_string());
    capped.exact();
    capped.limit(2);
    assert_eq!(world.world_symbols(capped).len(), 2);
}

#[test]
fn fuzzy_search_matches_subsequences() {
    let mut state = WorldState::new();
    state.change_file(FileId(1), Some(fn_file("fn foobar() {}", "foobar")));
    state.change_file(FileId(2), Some(fn_file("fn bar() {}", "bar")));
    let world = state.analysis(TableResolver::new());
    let hits = world.world_symbols(Query::new("fbr".to_string()));
    assert_eq!(hits.len(), 1);
    assert_eq!(hits[0].1.name, "foobar");
    assert_eq!(world.world_symbols(Query::new("".to_string())).len(), 2);
    assert!(world.world_symbols(Query::new("rab".to_string())).is_empty());
}

#[test]
fn name_reference_resolves_as_exact_search() {
    let mut state = WorldState::new();
    state.change_file(FileId(1), Some(fn_file("fn foo() {}", "foo")));
    let mut user = file("fn main() { foo() }", vec![symbol("main", 0, 19, SymbolKind::Function)], Vec::new());
    user.name_refs.push(NameRef { text: "foo".to_string(), range: range(12, 15) });
    state.change_file(FileId(2), Some(user));
    state.change_file(FileId(3), Some(fn_file("fn foox() {}", "foox")));
    let world = state.analysis(TableResolver::new());
    let resolved = world.approximately_resolve_symbol(FileId(2), 13).unwrap();
    let mut query = Query::new("foo".to_string());
    query.exact();
    query.limit(4);
    let searched = world.world_symbols(query);
    assert_eq!(resolved.len(), 1);
    assert_eq!(resolved.len(), searched.len());
    assert_eq!(resolved[0].0, searched[0].0);
    assert_eq!(resolved[0].1.name, searched[0].1.name);
    assert!(world.approximately_resolve_symbol(FileId(2), 2).unwrap().is_empty());
    assert_eq!(
        world.approximately_resolve_symbol(FileId(4), 0).unwrap_err(),
        AnalysisError::NotFound(FileId(4))
    );
}

#[test]
fn assists_keep_applicable_proposals_in_order() {
    let mut state = WorldState::new();
    state.change_file(FileId(1), Some(fn_file("fn f(a, b) {}", "f")));
    let world = state.analysis(TableResolver::new());
    let flip = LocalEdit {
        edit: vec![AtomEdit { delete: range(5, 9), insert: "b, a".to_string() }],
        cursor_position: Some(6),
    };
    let derive = LocalEdit { edit: vec![AtomEdit { delete: range(0, 0), insert: "#[derive()]\n".to_string() }], cursor_position: None };
    let changes = world
        .assists(
            FileId(1),
            vec![
                ("flip comma".to_string(), Some(flip)),
                ("add `#[derive]`".to_string(), None),
                ("add impl".to_string(), Some(derive)),
            ],
        )
        .unwrap();
    assert_eq!(changes.len(), 2);
    assert_eq!(changes[0].label, "flip comma");
    assert_eq!(changes[0].cursor_position, Some((FileId(1), 6)));
    assert_eq!(changes[0].source_file_edits.len(), 1);
    assert_eq!(changes[0].source_file_edits[0].file_id, FileId(1));
    assert_eq!(changes[0].source_file_edits[0].edits[0].insert, "b, a");
    assert!(changes[0].file_system_edits.is_empty());
    assert_eq!(changes[1].label, "add impl");
    assert_eq!(changes[1].cursor_position, None);
    assert!(world.assists(FileId(2), Vec::new()).is_err());
}

#[test]
fn table_resolver_answers_from_its_tables() {
    let mut r = stems(&[(1, "lib"), (1, "main")]);
    r.add_link(FileId(1), "../x.rs".to_string(), FileId(5));
    assert_eq!(r.file_stem(FileId(1)), "main");
    assert_eq!(r.file_stem(FileId(2)), "");
    assert_eq!(r.resolve(FileId(1), "../x.rs"), Some(FileId(5)));
    assert_eq!(r.resolve(FileId(1), "../y.rs"), None);
}

#[test]
fn batch_applies_changes_in_order() {
    let mut state = WorldState::new();
    state.change_files(vec![
        (FileId(1), Some(fn_file("fn a() {}", "a"))),
        (FileId(2), Some(fn_file("fn b() {}", "b"))),
        (FileId(1), None),
        (FileId(2), Some(fn_file("fn c() {}", "c"))),
        (FileId(9), None),
    ]);
    let world = state.analysis(TableResolver::new());
    assert_eq!(world.file_syntax(FileId(1)).unwrap_err(), AnalysisError::NotFound(FileId(1)));
    assert_eq!(world.file_syntax(FileId(2)).unwrap().text, "fn c() {}");
    assert_eq!(world.file_syntax(FileId(9)).unwrap_err(), AnalysisError::NotFound(FileId(9)));
    assert_eq!(world.world_symbols(Query::new("".to_string())).len(), 1);
    assert!(world.parent_module(FileId(2)).is_empty());
}

#[test]
fn shared_registry_copy_keeps_the_module_graph() {
    let mut state = WorldState::new();
    state.change_file(FileId(1), Some(file("mod b;", Vec::new(), vec![module("b", 0, true)])));
    state.change_file(FileId(2), Some(file("", Vec::new(), Vec::new())));
    let links = || {
        let mut r = stems(&[(1, "lib"), (2, "b")]);
        r.add_link(FileId(1), "../b.rs".to_string(), FileId(2));
        r
    };
    let before = state.analysis(links());
    state.change_files(Vec::new());
    let after = state.analysis(links());
    assert_eq!(before.parent_module(FileId(2)).len(), 1);
    assert_eq!(after.parent_module(FileId(2)).len(), 1);
    assert_eq!(after.parent_module(FileId(2))[0].0, FileId(1));
    assert_eq!(after.diagnostics(FileId(1)).unwrap().len(), before.diagnostics(FileId(1)).unwrap().len());
}
