//! Counting the `?` in a tree.

use vstd::prelude::*;
use crate::tree::{Block, BlockView, Expr, ExprView, Item, ItemView, Tree, TreeView, stream_view};

verus! {

/// How many `?` stand in a stream, at any depth.
pub open spec fn stream_try_count(stream: Seq<TreeView>) -> nat
    decreases stream,
{
    if stream.len() == 0 {
        0
    } else {
        stream_try_count(stream.drop_last()) + tree_try_count(stream.last())
    }
}

/// How many `?` stand in a tree, at any depth.
pub open spec fn tree_try_count(tree: TreeView) -> nat
    decreases tree,
{
    match tree {
        TreeView::Token(_) => 0,
        TreeView::Group(group) => stream_try_count(group.stream),
        TreeView::Expr(expr) => expr_try_count(expr),
    }
}

/// How many `?` stand in an expression, itself included, at any depth.
pub open spec fn expr_try_count(expr: ExprView) -> nat
    decreases expr,
{
    match expr {
        ExprView::Try(expr_try) => 1 + expr_try_count(*expr_try.expr),
        ExprView::Match(expr_match) => expr_try_count(*expr_match.expr) + stream_try_count(
            expr_match.arms,
        ),
        ExprView::Verbatim(stream) => stream_try_count(stream),
    }
}

/// How many `?` stand in an item.
pub open spec fn item_try_count(item: ItemView) -> nat {
    stream_try_count(item.stream)
}

/// How many `?` stand in a block.
pub open spec fn block_try_count(block: BlockView) -> nat {
    stream_try_count(block.stmts)
}

/// One more tree at the end of a stream adds the `?` that stand in it.
pub proof fn lemma_stream_try_count_push(stream: Seq<TreeView>, tree: TreeView)
    ensures
        stream_try_count(stream.push(tree)) == stream_try_count(stream) + tree_try_count(tree),
{
    assert(stream.push(tree).drop_last() =~= stream);
}

/// A stream holds no `?` exactly when none of its members does.
pub proof fn lemma_stream_try_count_zero(stream: Seq<TreeView>)
    ensures
        stream_try_count(stream) == 0 <==> forall|i: int|
            0 <= i < stream.len() ==> tree_try_count(#[trigger] stream[i]) == 0,
    decreases stream.len(),
{
    if stream.len() > 0 {
        let front = stream.drop_last();
        lemma_stream_try_count_zero(front);
        assert(forall|i: int| 0 <= i < front.len() ==> front[i] == stream[i]);
        if forall|i: int| 0 <= i < stream.len() ==> tree_try_count(#[trigger] stream[i]) == 0 {
            assert forall|i: int| 0 <= i < front.len() implies tree_try_count(
                #[trigger] front[i],
            ) == 0 by {}
        }
    }
}

impl Expr {
    /// Whether a `?` stands in this expression, at any depth.
    pub fn has_try(&self) -> (found: bool)
        ensures
            found == (expr_try_count(self@) > 0),
        decreases self,
    {
        match self {
            Expr::Try(_) => true,
            Expr::Match(expr_match) => expr_match.expr.has_try() || stream_has_try(
                &expr_match.arms,
            ),
            Expr::Verbatim(stream) => stream_has_try(stream),
        }
    }
}

impl Tree {
    /// Whether a `?` stands in this tree, at any depth.
    pub fn has_try(&self) -> (found: bool)
        ensures
            found == (tree_try_count(self@) > 0),
        decreases self,
    {
        match self {
            Tree::Token(_) => false,
            Tree::Group(group) => stream_has_try(&group.stream),
            Tree::Expr(expr) => expr.has_try(),
        }
    }
}

/// Whether a `?` stands in a stream, at any depth.
pub fn stream_has_try(stream: &Vec<Tree>) -> (found: bool)
    ensures
        found == (stream_try_count(stream_view(stream@)) > 0),
    decreases stream,
{
    let ghost view = stream_view(stream@);
    let mut i: usize = 0;
    while i < stream.len()
        invariant
            i <= stream.len(),
            view == stream_view(stream@),
            forall|j: int| 0 <= j < i ==> tree_try_count(#[trigger] view[j]) == 0,
        decreases stream.len() - i,
    {
        if stream[i].has_try() {
            proof {
                lemma_stream_try_count_zero(view);
                assert(tree_try_count(view[i as int]) > 0);
            }
            return true;
        }
        i = i + 1;
    }
    proof {
        lemma_stream_try_count_zero(view);
    }
    false
}

impl Item {
    /// Whether a `?` stands anywhere in this item.
    pub fn has_try(&self) -> (found: bool)
        ensures
            found == (item_try_count(self@) > 0),
    {
        stream_has_try(&self.stream)
    }
}

impl Block {
    /// Whether a `?` stands anywhere in this block.
    pub fn has_try(&self) -> (found: bool)
        ensures
            found == (block_try_count(self@) > 0),
    {
        stream_has_try(&self.stmts)
    }
}

} // verus!
