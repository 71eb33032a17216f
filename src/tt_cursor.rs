use vstd::prelude::*;

use crate::tt::{Ident, Leaf, Literal, Punct, Subtree, TokenTree};

verus! {

/// Why a token tree did not have the expected shape.
#[derive(Debug)]
pub enum ParseError {
    Expected(String),
}

/// Relies on `char::to_string` (through `char`'s `Display`, which writes the
/// character itself): a string of that one character.
#[verifier::external_body]
fn char_text(c: char) -> (r: String)
    ensures
        r@ == seq![c],
{
    c.to_string()
}

/// The character between two backquotes, as error messages name it.
fn backquoted(c: char) -> (r: String)
    ensures
        r@ == seq!['`', c, '`'],
{
    let mut m = String::from_str("`");
    let one = char_text(c);
    m.append(one.as_str());
    m.append("`");
    proof {
        reveal_strlit("`");
    }
    assert(m@ =~= seq!['`', c, '`']);
    m
}

/// A position among the token trees of a subtree.
pub struct TtCursor<'a> {
    pub subtree: &'a Subtree,
    pub pos: usize,
}

/// The token tree at `pos` of `s`, if there is one.
pub open spec fn tree_at(s: &Subtree, pos: usize) -> Option<TokenTree> {
    if pos < s.token_trees@.len() {
        Some(s.token_trees@[pos as int])
    } else {
        None
    }
}

/// Whether `t` is a punctuation token.
pub open spec fn is_punct(t: Option<TokenTree>) -> bool {
    t matches Some(TokenTree::Leaf(Leaf::Punct(_)))
}

/// Whether `t` is an identifier.
pub open spec fn is_ident(t: Option<TokenTree>) -> bool {
    t matches Some(TokenTree::Leaf(Leaf::Ident(_)))
}

/// Whether `t` is a literal.
pub open spec fn is_literal(t: Option<TokenTree>) -> bool {
    t matches Some(TokenTree::Leaf(Leaf::Literal(_)))
}

/// Whether `t` is the punctuation character `c`.
pub open spec fn is_char(t: Option<TokenTree>, c: char) -> bool {
    t matches Some(TokenTree::Leaf(Leaf::Punct(p))) && p.char == c
}

/// Whether `t` is an identifier that starts with a quote: a lifetime.
pub open spec fn is_lifetime(t: Option<TokenTree>) -> bool {
    t matches Some(TokenTree::Leaf(Leaf::Ident(i))) && i.text@.len() > 0 && i.text@[0] == '\''
}

impl<'a> TtCursor<'a> {
    pub open spec fn current_tree(&self) -> Option<TokenTree> {
        tree_at(self.subtree, self.pos)
    }

    pub fn new(subtree: &'a Subtree) -> (r: TtCursor<'a>)
        ensures
            r.subtree == subtree,
            r.pos == 0,
    {
        TtCursor { subtree, pos: 0 }
    }

    pub fn is_eof(&self) -> (r: bool)
        ensures
            r == (self.pos == self.subtree.token_trees@.len()),
    {
        self.pos == self.subtree.token_trees.len()
    }

    pub fn current(&self) -> (r: Option<&'a TokenTree>)
        ensures
            r is Some ==> self.pos < usize::MAX,
            match r {
                Some(t) => self.current_tree() == Some(*t),
                None => self.current_tree() is None,
            },
    {
        if self.pos < self.subtree.token_trees.len() {
            Some(&self.subtree.token_trees[self.pos])
        } else {
            None
        }
    }

    pub fn at_punct(&self) -> (r: Option<&'a Punct>)
        ensures
            r is Some ==> self.pos < usize::MAX,
            match r {
                Some(p) => self.current_tree() == Some(TokenTree::Leaf(Leaf::Punct(*p))),
                None => !is_punct(self.current_tree()),
            },
    {
        match self.current() {
            Some(TokenTree::Leaf(Leaf::Punct(it))) => Some(it),
            _ => None,
        }
    }

    pub fn at_char(&self, char: char) -> (r: bool)
        ensures
            r ==> self.pos < usize::MAX,
            r == is_char(self.current_tree(), char),
    {
        match self.at_punct() {
            Some(p) => p.char == char,
            None => false,
        }
    }

    pub fn at_ident(&self) -> (r: Option<&'a Ident>)
        ensures
            r is Some ==> self.pos < usize::MAX,
            match r {
                Some(i) => self.current_tree() == Some(TokenTree::Leaf(Leaf::Ident(*i))),
                None => !is_ident(self.current_tree()),
            },
    {
        match self.current() {
            Some(TokenTree::Leaf(Leaf::Ident(i))) => Some(i),
            _ => None,
        }
    }

    pub fn at_literal(&self) -> (r: Option<&'a Literal>)
        ensures
            r is Some ==> self.pos < usize::MAX,
            match r {
                Some(l) => self.current_tree() == Some(TokenTree::Leaf(Leaf::Literal(*l))),
                None => !is_literal(self.current_tree()),
            },
    {
        match self.current() {
            Some(TokenTree::Leaf(Leaf::Literal(i))) => Some(i),
            _ => None,
        }
    }

    pub fn bump(&mut self)
        requires
            old(self).pos < usize::MAX,
        ensures
            final(self).pos == old(self).pos + 1,
            final(self).subtree == old(self).subtree,
    {
        self.pos = self.pos + 1;
    }

    pub fn rev_bump(&mut self)
        requires
            old(self).pos > 0,
        ensures
            final(self).pos == old(self).pos - 1,
            final(self).subtree == old(self).subtree,
    {
        self.pos = self.pos - 1;
    }

    /// The current token tree, stepping past it.
    pub fn eat(&mut self) -> (r: Option<&'a TokenTree>)
        ensures
            final(self).subtree == old(self).subtree,
            match r {
                Some(t) => old(self).current_tree() == Some(*t) && final(self).pos == old(self).pos + 1,
                None => old(self).current_tree() is None && final(self).pos == old(self).pos,
            },
    {
        match self.current() {
            Some(it) => {
                self.bump();
                Some(it)
            },
            None => None,
        }
    }

    /// The current subtree, stepping past it; an error if the current tree
    /// is not a subtree.
    pub fn eat_subtree(&mut self) -> (r: Result<&'a Subtree, ParseError>)
        ensures
            final(self).subtree == old(self).subtree,
            match r {
                Ok(s) => old(self).current_tree() == Some(TokenTree::Subtree(*s)) && final(self).pos
                    == old(self).pos + 1,
                Err(e) => !(old(self).current_tree() matches Some(TokenTree::Subtree(_)))
                    && final(self).pos == old(self).pos && (e matches ParseError::Expected(m) && m@
                    == "subtree"@),
            },
    {
        match self.current() {
            Some(TokenTree::Subtree(sub)) => {
                self.bump();
                Ok(sub)
            },
            _ => Err(ParseError::Expected(String::from_str("subtree"))),
        }
    }

    pub fn eat_punct(&mut self) -> (r: Option<&'a Punct>)
        ensures
            final(self).subtree == old(self).subtree,
            match r {
                Some(p) => old(self).current_tree() == Some(TokenTree::Leaf(Leaf::Punct(*p)))
                    && final(self).pos == old(self).pos + 1,
                None => !is_punct(old(self).current_tree()) && final(self).pos == old(self).pos,
            },
    {
        match self.at_punct() {
            Some(it) => {
                self.bump();
                Some(it)
            },
            None => None,
        }
    }

    pub fn eat_ident(&mut self) -> (r: Option<&'a Ident>)
        ensures
            final(self).subtree == old(self).subtree,
            match r {
                Some(i) => old(self).current_tree() == Some(TokenTree::Leaf(Leaf::Ident(*i)))
                    && final(self).pos == old(self).pos + 1,
                None => !is_ident(old(self).current_tree()) && final(self).pos == old(self).pos,
            },
    {
        match self.at_ident() {
            Some(i) => {
                self.bump();
                Some(i)
            },
            None => None,
        }
    }

    pub fn eat_literal(&mut self) -> (r: Option<&'a Literal>)
        ensures
            final(self).subtree == old(self).subtree,
            match r {
                Some(l) => old(self).current_tree() == Some(TokenTree::Leaf(Leaf::Literal(*l)))
                    && final(self).pos == old(self).pos + 1,
                None => !is_literal(old(self).current_tree()) && final(self).pos == old(self).pos,
            },
    {
        match self.at_literal() {
            Some(i) => {
                self.bump();
                Some(i)
            },
            None => None,
        }
    }

    /// A lifetime (an identifier that starts with `'`), as a token tree of
    /// its own, stepping past it.
    pub fn eat_lifetime(&mut self) -> (r: Option<TokenTree>)
        ensures
            final(self).subtree == old(self).subtree,
            is_lifetime(old(self).current_tree()) ==> final(self).pos == old(self).pos + 1 && (
            r matches Some(TokenTree::Leaf(Leaf::Ident(i))) && old(self).current_tree() matches Some(
                TokenTree::Leaf(Leaf::Ident(j)),
            ) && i.text@ == j.text@ && i.id == j.id),
            !is_lifetime(old(self).current_tree()) ==> r is None && final(self).pos == old(self).pos,
    {
        match self.at_ident() {
            Some(ident) => {
                if ident.text.as_str().unicode_len() == 0 || ident.text.as_str().get_char(0) != '\'' {
                    return None;
                }
                let copy = ident.duplicate();
                self.bump();
                Some(TokenTree::Leaf(Leaf::Ident(copy)))
            },
            None => None,
        }
    }

    /// Steps past the punctuation character `char`; an error naming it if
    /// the current tree is something else.
    pub fn expect_char(&mut self, char: char) -> (r: Result<(), ParseError>)
        ensures
            final(self).subtree == old(self).subtree,
            is_char(old(self).current_tree(), char) ==> r is Ok && final(self).pos == old(self).pos + 1,
            !is_char(old(self).current_tree(), char) ==> final(self).pos == old(self).pos && (r matches Err(
                ParseError::Expected(m),
            ) && m@ == seq!['`', char, '`']),
    {
        if self.at_char(char) {
            self.bump();
            Ok(())
        } else {
            Err(ParseError::Expected(backquoted(char)))
        }
    }
}

} // verus!
