//! The quoters build exactly one literal leaf under an undelimited root.

use hir_expand::token_tree::{quote_string, quote_usize, Leaf, TokenTree};

#[test]
fn quoted_integers_are_single_literal_leaves() {
    let t = quote_usize(42);
    assert!(t.delimiter.is_none());
    assert_eq!(t.token_trees.len(), 1);
    assert_eq!(t.token_trees[0], TokenTree::Leaf(Leaf::IntLiteral(42)));
}

#[test]
fn quoted_strings_are_single_literal_leaves() {
    let t = quote_string("a + b".to_string());
    assert!(t.delimiter.is_none());
    assert_eq!(t.token_trees.len(), 1);
    assert_eq!(t.token_trees[0], TokenTree::Leaf(Leaf::StrLiteral("a + b".to_string())));
}
