//! The walk over a tree that replaces every `?`.

use vstd::prelude::*;
use crate::expand::{default_expr_try, expand, expansion};
use crate::laws::{
    lemma_rewritten_expr_has_no_try, lemma_rewritten_stream_has_no_try,
    lemma_stream_without_try_is_kept,
};
use crate::scan::{
    block_try_count, expr_try_count, item_try_count, stream_try_count, tree_try_count,
};
use crate::tree::{
    Block, BlockView, Expr, ExprMatchView, ExprTry, ExprView, GroupView, Item, ItemView, Tree,
    TreeView, stream_view,
};

verus! {

/// A stream after the rewrite: each member rewritten, in its place.
pub open spec fn rewritten_stream(stream: Seq<TreeView>) -> Seq<TreeView>
    decreases stream,
{
    Seq::new(
        stream.len(),
        |i: int|
            if 0 <= i < stream.len() {
                rewritten_tree(stream[i])
            } else {
                arbitrary()
            },
    )
}

/// A tree after the rewrite. A token stays as it is, a group keeps its
/// brackets, and an expression is rewritten.
pub open spec fn rewritten_tree(tree: TreeView) -> TreeView
    decreases tree,
{
    match tree {
        TreeView::Token(_) => tree,
        TreeView::Group(group) => TreeView::Group(
            GroupView { stream: rewritten_stream(group.stream), ..group },
        ),
        TreeView::Expr(expr) => TreeView::Expr(rewritten_expr(expr)),
    }
}

/// An expression after the rewrite. A `?` gives way to its expansion, built
/// on the operand as it is after its own rewrite. Any other expression keeps
/// its shape and its tokens, and each expression in it is rewritten.
pub open spec fn rewritten_expr(expr: ExprView) -> ExprView
    decreases expr,
{
    match expr {
        ExprView::Try(expr_try) => expansion(
            expr_try.attrs,
            rewritten_expr(*expr_try.expr),
            expr_try.question_token,
        ),
        ExprView::Match(expr_match) => ExprView::Match(
            ExprMatchView {
                expr: Box::new(rewritten_expr(*expr_match.expr)),
                arms: rewritten_stream(expr_match.arms),
                ..expr_match
            },
        ),
        ExprView::Verbatim(stream) => ExprView::Verbatim(rewritten_stream(stream)),
    }
}

/// An item after the rewrite.
pub open spec fn rewritten_item(item: ItemView) -> ItemView {
    ItemView { stream: rewritten_stream(item.stream) }
}

/// A block after the rewrite.
pub open spec fn rewritten_block(block: BlockView) -> BlockView {
    BlockView { stmts: rewritten_stream(block.stmts), ..block }
}

/// Walks a tree and replaces every `?` in it, the innermost first.
pub struct Visitor;

impl Visitor {
    /// Rewrites an expression in place.
    ///
    /// Where the expression is a `?`, its operand is rewritten first and the
    /// expansion is then built on the result, so that the expansion of an
    /// outer `?` never holds an inner one. Anything else is walked through.
    pub fn visit_expr_mut(&mut self, node: &mut Expr)
        ensures
            final(node)@ == rewritten_expr(old(node)@),
            expr_try_count(final(node)@) == 0,
            expr_try_count(old(node)@) == 0 ==> final(node)@ == old(node)@,
        decreases *old(node),
    {
        proof {
            lemma_rewritten_expr_has_no_try(node@);
        }
        match node {
            Expr::Try(expr_try) => {
                let mut taken = default_expr_try();
                core::mem::swap(expr_try, &mut taken);
                let ExprTry { attrs, expr, question_token } = taken;
                let mut expr: Expr = *expr;
                self.visit_expr_mut(&mut expr);
                *node = expand(attrs, expr, question_token);
            },
            Expr::Match(expr_match) => {
                self.visit_expr_mut(&mut expr_match.expr);
                self.visit_stream_mut(&mut expr_match.arms);
            },
            Expr::Verbatim(stream) => {
                self.visit_stream_mut(stream);
            },
        }
    }

    /// Rewrites one member of a stream in place.
    pub fn visit_tree_mut(&mut self, tree: &mut Tree)
        ensures
            final(tree)@ == rewritten_tree(old(tree)@),
            tree_try_count(final(tree)@) == 0,
            tree_try_count(old(tree)@) == 0 ==> final(tree)@ == old(tree)@,
        decreases *old(tree),
    {
        match tree {
            Tree::Token(_) => {},
            Tree::Group(group) => {
                self.visit_stream_mut(&mut group.stream);
            },
            Tree::Expr(expr) => {
                self.visit_expr_mut(expr);
            },
        }
    }

    /// Rewrites every member of a stream in place, from the first to the last.
    pub fn visit_stream_mut(&mut self, stream: &mut Vec<Tree>)
        ensures
            stream_view(final(stream)@) == rewritten_stream(stream_view(old(stream)@)),
            stream_try_count(stream_view(final(stream)@)) == 0,
            stream_try_count(stream_view(old(stream)@)) == 0 ==> stream_view(final(stream)@)
                == stream_view(old(stream)@),
        decreases *old(stream),
    {
        proof {
            lemma_rewritten_stream_has_no_try(stream_view(stream@));
            if stream_try_count(stream_view(stream@)) == 0 {
                lemma_stream_without_try_is_kept(stream_view(stream@));
            }
        }
        let n: usize = stream.len();
        let mut i: usize = 0;
        while i < n
            invariant
                i <= n,
                stream.len() == n,
                old(stream).len() == n,
                forall|j: int| 0 <= j < i ==> stream@[j]@ == rewritten_tree(old(stream)@[j]@),
                forall|j: int| i <= j < n ==> stream@[j] == old(stream)@[j],
            decreases n - i,
        {
            self.visit_tree_mut(&mut stream[i]);
            i = i + 1;
        }
        assert(stream_view(stream@) =~= rewritten_stream(stream_view(old(stream)@)));
    }

    /// Rewrites every expression of an item in place.
    pub fn visit_item_mut(&mut self, item: &mut Item)
        ensures
            final(item)@ == rewritten_item(old(item)@),
            item_try_count(final(item)@) == 0,
            item_try_count(old(item)@) == 0 ==> final(item)@ == old(item)@,
    {
        self.visit_stream_mut(&mut item.stream);
    }

    /// Rewrites every expression of a block in place. The braces stay.
    pub fn visit_block_mut(&mut self, block: &mut Block)
        ensures
            final(block)@ == rewritten_block(old(block)@),
            block_try_count(final(block)@) == 0,
            block_try_count(old(block)@) == 0 ==> final(block)@ == old(block)@,
    {
        self.visit_stream_mut(&mut block.stmts);
    }
}

} // verus!
