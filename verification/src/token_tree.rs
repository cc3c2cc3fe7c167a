//! Token trees: an ordered tree whose leaves are literals, identifiers or
//! punctuation and whose internal nodes are delimited groups. The expanders
//! only ever build output trees of one shape — a single literal leaf under an
//! undelimited root — so the quoters below are all the construction needed.

use vstd::prelude::*;

verus! {

/// Which bracket pair encloses a delimited group.
#[derive(Debug, Clone, Copy, PartialEq, Eq)]
pub enum DelimiterKind {
    Parenthesis,
    Bracket,
    Brace,
}

/// A leaf token: a literal, an identifier, or one punctuation character.
#[derive(Debug, PartialEq, Eq)]
pub enum Leaf {
    IntLiteral(usize),
    StrLiteral(String),
    Ident(String),
    Punct(char),
}

/// One node of a token tree.
#[derive(Debug, PartialEq, Eq)]
pub enum TokenTree {
    Leaf(Leaf),
    Subtree(Subtree),
}

/// A delimited group of token trees; `delimiter` is `None` at an undelimited
/// root, such as the whole output of an expansion.
#[derive(Debug, PartialEq, Eq)]
pub struct Subtree {
    pub delimiter: Option<DelimiterKind>,
    pub token_trees: Vec<TokenTree>,
}

/// `t` is an undelimited root holding exactly one integer-literal leaf with
/// value `n`.
pub open spec fn is_single_int_leaf(t: Subtree, n: int) -> bool {
    &&& t.delimiter is None
    &&& t.token_trees@.len() == 1
    &&& t.token_trees@[0] matches TokenTree::Leaf(Leaf::IntLiteral(m)) && m == n
}

/// `t` is an undelimited root holding exactly one string-literal leaf whose
/// characters are `s`.
pub open spec fn is_single_str_leaf(t: Subtree, s: Seq<char>) -> bool {
    &&& t.delimiter is None
    &&& t.token_trees@.len() == 1
    &&& t.token_trees@[0] matches TokenTree::Leaf(Leaf::StrLiteral(x)) && x@ == s
}

/// Quotes one integer value as an output token tree: a single
/// integer-literal leaf.
pub fn quote_usize(n: usize) -> (t: Subtree)
    ensures
        is_single_int_leaf(t, n as int),
{
    let mut trees: Vec<TokenTree> = Vec::new();
    trees.push(TokenTree::Leaf(Leaf::IntLiteral(n)));
    Subtree { delimiter: None, token_trees: trees }
}

/// Quotes one string value as an output token tree: a single string-literal
/// leaf.
pub fn quote_string(s: String) -> (t: Subtree)
    ensures
        is_single_str_leaf(t, s@),
{
    let mut trees: Vec<TokenTree> = Vec::new();
    trees.push(TokenTree::Leaf(Leaf::StrLiteral(s)));
    Subtree { delimiter: None, token_trees: trees }
}

} // verus!
