//! What holds of every rewrite.

use vstd::prelude::*;
use crate::expand::{branch_call, branch_path, break_arm, continue_arm, enclosed, expansion};
use crate::print::{attributes_tokens, delimited, expr_tokens, unparsed_expr, unparsed_operand};
use crate::scan::{
    block_try_count, expr_try_count, item_try_count, lemma_stream_try_count_push,
    lemma_stream_try_count_zero, stream_try_count, tree_try_count,
};
use crate::token::{AttributeView, Delimiter, Span};
use crate::tree::{BlockView, ExprTryView, ExprView, ItemView, TreeView};
use crate::visit::{
    rewritten_block, rewritten_expr, rewritten_item, rewritten_stream, rewritten_tree,
};
use crate::written::{expansion_head, expansion_tail, lemma_expansion_tokens};

verus! {

/// The expansion of a `?` holds as many `?` as its operand does: the tokens
/// that the expansion adds hold none.
pub proof fn lemma_expansion_try_count(attrs: Seq<AttributeView>, operand: ExprView, span: Span)
    ensures
        expr_try_count(expansion(attrs, operand, span)) == expr_try_count(operand),
{
    let arms = continue_arm(span) + break_arm(span);
    lemma_stream_try_count_zero(arms);
    assert(stream_try_count(arms) == 0) by {
        assert forall|i: int| 0 <= i < arms.len() implies tree_try_count(#[trigger] arms[i])
            == 0 by {
            if arms[i] is Group {
                let inner = arms[i]->Group_0.stream;
                lemma_stream_try_count_zero(inner);
                assert forall|j: int| 0 <= j < inner.len() implies tree_try_count(
                    #[trigger] inner[j],
                ) == 0 by {
                    if inner[j] is Group {
                        let innermost = inner[j]->Group_0.stream;
                        lemma_stream_try_count_zero(innermost);
                    }
                }
            }
        }
    }
    let path = branch_path(span);
    let slot = TreeView::Expr(operand);
    lemma_stream_try_count_zero(path);
    lemma_stream_try_count_push(Seq::empty(), slot);
    lemma_stream_try_count_push(path, enclosed(Delimiter::Parenthesis, seq![slot], span));
    assert(expr_try_count(branch_call(operand, span)) == expr_try_count(operand));
}

/// A tree in which no `?` stands comes out of the rewrite as it went in.
pub proof fn lemma_expr_without_try_is_kept(expr: ExprView)
    requires
        expr_try_count(expr) == 0,
    ensures
        rewritten_expr(expr) == expr,
    decreases expr,
{
    match expr {
        ExprView::Try(_) => {},
        ExprView::Match(expr_match) => {
            lemma_expr_without_try_is_kept(*expr_match.expr);
            lemma_stream_without_try_is_kept(expr_match.arms);
        },
        ExprView::Verbatim(stream) => {
            lemma_stream_without_try_is_kept(stream);
        },
    }
}

/// A tree in which no `?` stands comes out of the rewrite as it went in.
pub proof fn lemma_tree_without_try_is_kept(tree: TreeView)
    requires
        tree_try_count(tree) == 0,
    ensures
        rewritten_tree(tree) == tree,
    decreases tree,
{
    match tree {
        TreeView::Token(_) => {},
        TreeView::Group(group) => {
            lemma_stream_without_try_is_kept(group.stream);
        },
        TreeView::Expr(expr) => {
            lemma_expr_without_try_is_kept(expr);
        },
    }
}

/// A stream in which no `?` stands comes out of the rewrite as it went in.
pub proof fn lemma_stream_without_try_is_kept(stream: Seq<TreeView>)
    requires
        stream_try_count(stream) == 0,
    ensures
        rewritten_stream(stream) == stream,
    decreases stream,
{
    lemma_stream_try_count_zero(stream);
    assert forall|i: int| 0 <= i < stream.len() implies rewritten_tree(stream[i])
        == stream[i] by {
        lemma_tree_without_try_is_kept(stream[i]);
    }
}

/// An item in which no `?` stands comes out of the rewrite as it went in.
pub proof fn lemma_item_without_try_is_kept(item: ItemView)
    requires
        item_try_count(item) == 0,
    ensures
        rewritten_item(item) == item,
{
    lemma_stream_without_try_is_kept(item.stream);
}

/// A block in which no `?` stands comes out of the rewrite as it went in.
pub proof fn lemma_block_without_try_is_kept(block: BlockView)
    requires
        block_try_count(block) == 0,
    ensures
        rewritten_block(block) == block,
{
    lemma_stream_without_try_is_kept(block.stmts);
}

/// No `?` is left in an expression after the rewrite, however deep the `?`
/// stood and however they were nested.
pub proof fn lemma_rewritten_expr_has_no_try(expr: ExprView)
    ensures
        expr_try_count(rewritten_expr(expr)) == 0,
    decreases expr,
{
    match expr {
        ExprView::Try(expr_try) => {
            lemma_rewritten_expr_has_no_try(*expr_try.expr);
            lemma_expansion_try_count(
                expr_try.attrs,
                rewritten_expr(*expr_try.expr),
                expr_try.question_token,
            );
        },
        ExprView::Match(expr_match) => {
            lemma_rewritten_expr_has_no_try(*expr_match.expr);
            lemma_rewritten_stream_has_no_try(expr_match.arms);
        },
        ExprView::Verbatim(stream) => {
            lemma_rewritten_stream_has_no_try(stream);
        },
    }
}

/// No `?` is left in a tree after the rewrite.
pub proof fn lemma_rewritten_tree_has_no_try(tree: TreeView)
    ensures
        tree_try_count(rewritten_tree(tree)) == 0,
    decreases tree,
{
    match tree {
        TreeView::Token(_) => {},
        TreeView::Group(group) => {
            lemma_rewritten_stream_has_no_try(group.stream);
        },
        TreeView::Expr(expr) => {
            lemma_rewritten_expr_has_no_try(expr);
        },
    }
}

/// No `?` is left in a stream after the rewrite.
pub proof fn lemma_rewritten_stream_has_no_try(stream: Seq<TreeView>)
    ensures
        stream_try_count(rewritten_stream(stream)) == 0,
    decreases stream,
{
    let after = rewritten_stream(stream);
    lemma_stream_try_count_zero(after);
    assert forall|i: int| 0 <= i < after.len() implies tree_try_count(#[trigger] after[i])
        == 0 by {
        lemma_rewritten_tree_has_no_try(stream[i]);
    }
}

/// No `?` is left in an item after the rewrite.
pub proof fn lemma_rewritten_item_has_no_try(item: ItemView)
    ensures
        item_try_count(rewritten_item(item)) == 0,
{
    lemma_rewritten_stream_has_no_try(item.stream);
}

/// No `?` is left in a block after the rewrite.
pub proof fn lemma_rewritten_block_has_no_try(block: BlockView)
    ensures
        block_try_count(rewritten_block(block)) == 0,
{
    lemma_rewritten_stream_has_no_try(block.stmts);
}

/// A second rewrite changes nothing: one pass does all there is to do.
pub proof fn lemma_rewrite_is_idempotent(item: ItemView)
    ensures
        rewritten_item(rewritten_item(item)) == rewritten_item(item),
{
    lemma_rewritten_item_has_no_try(item);
    lemma_item_without_try_is_kept(rewritten_item(item));
}

/// The operand comes first. The `branch` call that replaces a `?` is made on
/// the operand as it is after its own rewrite, and so on an expression in
/// which no `?` is left: in `x??` the outer call is made on the `match` that
/// replaced the inner `?`.
pub proof fn lemma_operand_is_rewritten_first(expr_try: ExprTryView)
    ensures
        rewritten_expr(ExprView::Try(expr_try)) is Match,
        rewritten_expr(ExprView::Try(expr_try))->Match_0.expr == Box::new(
            branch_call(rewritten_expr(*expr_try.expr), expr_try.question_token),
        ),
        expr_try_count(rewritten_expr(*expr_try.expr)) == 0,
{
    lemma_rewritten_expr_has_no_try(*expr_try.expr);
}

/// The attributes of a `?` stand on the `match` that replaces it, the same
/// and in the same order.
pub proof fn lemma_attributes_are_kept(expr_try: ExprTryView)
    ensures
        rewritten_expr(ExprView::Try(expr_try)) is Match,
        rewritten_expr(ExprView::Try(expr_try))->Match_0.attrs == expr_try.attrs,
{
}

/// Only a `?` is rewritten. Every member of a stream keeps its place: a
/// token stays the token it was, a group keeps its delimiters and their
/// place, and an expression gives way to one expression.
pub proof fn lemma_rewrite_keeps_places(stream: Seq<TreeView>, i: int)
    requires
        0 <= i < stream.len(),
    ensures
        rewritten_stream(stream).len() == stream.len(),
        stream[i] is Token ==> rewritten_stream(stream)[i] == stream[i],
        stream[i] is Group ==> rewritten_stream(stream)[i] is Group && rewritten_stream(
            stream,
        )[i]->Group_0.delimiter == stream[i]->Group_0.delimiter && rewritten_stream(
            stream,
        )[i]->Group_0.span == stream[i]->Group_0.span,
        stream[i] is Expr ==> rewritten_stream(stream)[i] is Expr,
{
}

/// What replaces a `?` is one operand. Where the `?` stood as an operand,
/// among the tokens of another expression, the `match` that replaces it is
/// written as a single group between parentheses: in `x? + 2` the `+` adds 2
/// to the whole `match`.
pub proof fn lemma_replacement_is_one_operand(expr_try: ExprTryView)
    ensures
        unparsed_operand(rewritten_expr(ExprView::Try(expr_try))) == seq![
            delimited(
                Delimiter::Parenthesis,
                unparsed_expr(rewritten_expr(ExprView::Try(expr_try))),
                Span::call_site(),
            ),
        ],
{
}

/// Every token that the rewrite writes for a `?` stands at that `?`: the
/// tokens of what replaces the `?` are its attributes, the head of the
/// expansion, the tokens of the rewritten operand and the tail of the
/// expansion, head and tail at the place of the `?`.
pub proof fn lemma_rewritten_try_tokens(expr_try: ExprTryView)
    ensures
        expr_tokens(rewritten_expr(ExprView::Try(expr_try))) == attributes_tokens(expr_try.attrs)
            + expansion_head(expr_try.question_token) + expr_tokens(
            rewritten_expr(*expr_try.expr),
        ) + expansion_tail(expr_try.question_token),
        forall|i: int|
            0 <= i < expansion_head(expr_try.question_token).len() ==> (#[trigger] expansion_head(
                expr_try.question_token,
            )[i]).span == expr_try.question_token,
        forall|i: int|
            0 <= i < expansion_tail(expr_try.question_token).len() ==> (#[trigger] expansion_tail(
                expr_try.question_token,
            )[i]).span == expr_try.question_token,
{
    lemma_expansion_tokens(
        expr_try.attrs,
        rewritten_expr(*expr_try.expr),
        expr_try.question_token,
    );
}

} // verus!
