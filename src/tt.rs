use vstd::prelude::*;

verus! {

/// How a punctuation character joins the next token.
#[derive(Clone, Copy, Debug, PartialEq, Eq, Structural)]
pub enum Spacing {
    Alone,
    Joint,
}

/// The brackets around a subtree.
#[derive(Clone, Copy, Debug, PartialEq, Eq, Structural)]
pub enum Delimiter {
    Parenthesis,
    Brace,
    Bracket,
    Invisible,
}

#[derive(Clone, Copy, Debug, PartialEq, Eq, Structural)]
pub struct TokenId(pub u32);

#[derive(Debug)]
pub struct Literal {
    pub text: String,
}

#[derive(Clone, Copy, Debug, PartialEq, Eq, Structural)]
pub struct Punct {
    pub char: char,
    pub spacing: Spacing,
}

#[derive(Debug)]
pub struct Ident {
    pub text: String,
    pub id: TokenId,
}

impl Ident {
    pub fn duplicate(&self) -> (r: Ident)
        ensures
            r.text@ == self.text@,
            r.id == self.id,
    {
        Ident { text: self.text.clone(), id: self.id }
    }
}

/// A single token.
#[derive(Debug)]
pub enum Leaf {
    Literal(Literal),
    Punct(Punct),
    Ident(Ident),
}

/// A token, or a bracketed group of tokens.
#[derive(Debug)]
pub enum TokenTree {
    Leaf(Leaf),
    Subtree(Subtree),
}

/// A bracketed sequence of token trees.
#[derive(Debug)]
pub struct Subtree {
    pub delimiter: Delimiter,
    pub token_trees: Vec<TokenTree>,
}

} // verus!
