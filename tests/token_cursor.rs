use libanalysis::{
    Delimiter, FileId, Ident, Leaf, LineIndex, Literal, ParseError, Punct, Spacing, Subtree, TableResolver,
    TokenId, TokenTree, TtCursor, WorldState, File,
};

fn ident(text: &str) -> TokenTree {
    TokenTree::Leaf(Leaf::Ident(Ident { text: text.to_string(), id: TokenId(0) }))
}

fn punct(c: char) -> TokenTree {
    TokenTree::Leaf(Leaf::Punct(Punct { char: c, spacing: Spacing::Alone }))
}

fn sample() -> Subtree {
    Subtree {
        delimiter: Delimiter::Invisible,
        token_trees: vec![
            ident("'a"),
            ident("x"),
            punct(','),
            TokenTree::Leaf(Leaf::Literal(Literal { text: "1".to_string() })),
            TokenTree::Subtree(Subtree { delimiter: Delimiter::Parenthesis, token_trees: Vec::new() }),
        ],
    }
}

#[test]
fn cursor_walks_the_trees() {
    let tree = sample();
    let mut c = TtCursor::new(&tree);
    assert!(!c.is_eof());
    match c.eat_lifetime() {
        Some(TokenTree::Leaf(Leaf::Ident(i))) => assert_eq!(i.text, "'a"),
        other => panic!("unexpected {:?}", other),
    }
    assert!(c.eat_lifetime().is_none());
    assert_eq!(c.pos, 1);
    assert!(c.at_punct().is_none());
    assert_eq!(c.eat_ident().unwrap().text, "x");
    assert!(c.at_char(','));
    assert!(!c.at_char(';'));
    match c.expect_char(';') {
        Err(ParseError::Expected(m)) => assert_eq!(m, "`;`"),
        other => panic!("unexpected {:?}", other),
    }
    assert!(c.expect_char(',').is_ok());
    assert!(c.eat_subtree().is_err());
    assert_eq!(c.eat_literal().unwrap().text, "1");
    assert_eq!(c.eat_subtree().unwrap().delimiter, Delimiter::Parenthesis);
    assert!(c.is_eof());
    assert!(c.eat().is_none());
    c.rev_bump();
    assert!(c.eat().is_some());
    match c.eat_subtree() {
        Err(ParseError::Expected(m)) => assert_eq!(m, "subtree"),
        Ok(_) => panic!("no subtree is left"),
    }
}

#[test]
fn line_index_marks_line_starts() {
    assert_eq!(LineIndex::new("").newlines, vec![0]);
    assert_eq!(LineIndex::new("ab\ncd\n\nx").newlines, vec![0, 3, 6, 7]);
    assert_eq!(LineIndex::new("é\nz").newlines, vec![0, 3]);
    let mut state = WorldState::new();
    state.change_file(
        FileId(1),
        Some(File {
            text: "a\nb".to_string(),
            symbols: Vec::new(),
            modules: Vec::new(),
            name_refs: Vec::new(),
            errors: Vec::new(),
        }),
    );
    let world = state.analysis(TableResolver::new());
    assert_eq!(world.file_line_index(FileId(1)).unwrap().newlines, vec![0, 2]);
    assert!(world.file_line_index(FileId(2)).is_err());
}
