//! The tokens that an expansion writes.

use vstd::prelude::*;
use crate::expand::{
    branch_call, branch_path, break_arm, continue_arm, control_flow_path, control_flow_pattern,
    enclosed, expansion, from_residual_path, return_statement, segment, word,
};
use crate::print::{
    attributes_tokens, expr_tokens, lemma_expr_tokens, lemma_stream_tokens_add,
    lemma_stream_tokens_push, lemma_tree_tokens, stream_tokens, tree_tokens,
};
use crate::token::{AttributeView, Delimiter, Span, TokenView, mark, marks};
use crate::tree::{ExprView, TreeView};

verus! {

/// The texts of the tokens that an expansion puts in front of the operand.
pub const HEAD: [&'static str; 8] = ["match", "::", "try_macro", "::", "Try", "::", "branch", "("];

/// The texts of the tokens that an expansion puts behind the operand.
pub const TAIL: [&'static str; 42] = [
    ")", "{",
        "::", "core", "::", "ops", "::", "ControlFlow", "::", "Continue", "(", "value", ")", "=>",
            "value", ",",
        "::", "core", "::", "ops", "::", "ControlFlow", "::", "Break", "(", "err", ")", "=>", "{",
            "return", "::", "try_macro", "::", "FromResidual", "::", "from_residual", "(", "err",
                ")", ";",
        "}",
    "}",
];

/// The tokens that an expansion at `span` puts in front of the operand.
pub open spec fn expansion_head(span: Span) -> Seq<TokenView> {
    marks(HEAD@, span)
}

/// The tokens that an expansion at `span` puts behind the operand.
pub open spec fn expansion_tail(span: Span) -> Seq<TokenView> {
    marks(TAIL@, span)
}

proof fn lemma_word_tokens(name: &str, span: Span, operand: bool)
    ensures
        tree_tokens(word(name, span), operand) == seq![mark(name, span)],
{
    lemma_tree_tokens(word(name, span), operand);
}

proof fn lemma_segment_tokens(name: &str, span: Span, operand: bool)
    ensures
        stream_tokens(segment(name, span), operand) == seq![mark("::", span), mark(name, span)],
{
    let colons = word("::", span);
    let empty = Seq::<TreeView>::empty();
    lemma_word_tokens("::", span, operand);
    lemma_word_tokens(name, span, operand);
    lemma_stream_tokens_push(empty, colons, operand);
    lemma_stream_tokens_push(empty.push(colons), word(name, span), operand);
    assert(empty.push(colons).push(word(name, span)) =~= segment(name, span));
}

proof fn lemma_word_in_parentheses_tokens(name: &str, span: Span, operand: bool)
    ensures
        tree_tokens(enclosed(Delimiter::Parenthesis, seq![word(name, span)], span), operand)
            == seq![mark("(", span), mark(name, span), mark(")", span)],
{
    let empty = Seq::<TreeView>::empty();
    lemma_word_tokens(name, span, false);
    lemma_stream_tokens_push(empty, word(name, span), false);
    lemma_tree_tokens(enclosed(Delimiter::Parenthesis, seq![word(name, span)], span), operand);
}

proof fn lemma_branch_path_tokens(span: Span, operand: bool)
    ensures
        stream_tokens(branch_path(span), operand) == seq![
            mark("::", span),
            mark("try_macro", span),
            mark("::", span),
            mark("Try", span),
            mark("::", span),
            mark("branch", span),
        ],
{
    lemma_segment_tokens("try_macro", span, operand);
    lemma_segment_tokens("Try", span, operand);
    lemma_segment_tokens("branch", span, operand);
    lemma_stream_tokens_add(segment("try_macro", span), segment("Try", span), operand);
    lemma_stream_tokens_add(
        segment("try_macro", span) + segment("Try", span),
        segment("branch", span),
        operand,
    );
}

proof fn lemma_from_residual_path_tokens(span: Span, operand: bool)
    ensures
        stream_tokens(from_residual_path(span), operand) == seq![
            mark("::", span),
            mark("try_macro", span),
            mark("::", span),
            mark("FromResidual", span),
            mark("::", span),
            mark("from_residual", span),
        ],
{
    lemma_segment_tokens("try_macro", span, operand);
    lemma_segment_tokens("FromResidual", span, operand);
    lemma_segment_tokens("from_residual", span, operand);
    lemma_stream_tokens_add(segment("try_macro", span), segment("FromResidual", span), operand);
    lemma_stream_tokens_add(
        segment("try_macro", span) + segment("FromResidual", span),
        segment("from_residual", span),
        operand,
    );
}

proof fn lemma_control_flow_pattern_tokens(variant: &str, binding: &str, span: Span)
    ensures
        stream_tokens(control_flow_pattern(variant, binding, span), false) == seq![
            mark("::", span),
            mark("core", span),
            mark("::", span),
            mark("ops", span),
            mark("::", span),
            mark("ControlFlow", span),
            mark("::", span),
            mark(variant, span),
            mark("(", span),
            mark(binding, span),
            mark(")", span),
        ],
{
    lemma_segment_tokens("core", span, false);
    lemma_segment_tokens("ops", span, false);
    lemma_segment_tokens("ControlFlow", span, false);
    lemma_segment_tokens(variant, span, false);
    lemma_stream_tokens_add(segment("core", span), segment("ops", span), false);
    lemma_stream_tokens_add(
        segment("core", span) + segment("ops", span),
        segment("ControlFlow", span),
        false,
    );
    lemma_stream_tokens_add(
        segment("core", span) + segment("ops", span) + segment("ControlFlow", span),
        segment(variant, span),
        false,
    );
    lemma_word_in_parentheses_tokens(binding, span, false);
    lemma_stream_tokens_push(
        control_flow_path(variant, span),
        enclosed(Delimiter::Parenthesis, seq![word(binding, span)], span),
        false,
    );
}

/// The tokens of the two arms of an expansion.
spec fn arms_tokens(span: Span) -> Seq<TokenView> {
    expansion_tail(span).subrange(2, expansion_tail(span).len() - 1)
}

proof fn lemma_arms_tokens(span: Span)
    ensures
        stream_tokens(continue_arm(span) + break_arm(span), false) == arms_tokens(span),
{
    let empty = Seq::<TreeView>::empty();
    lemma_word_tokens("=>", span, false);
    lemma_word_tokens("value", span, false);
    lemma_word_tokens(",", span, false);
    lemma_word_tokens("return", span, false);
    lemma_word_tokens(";", span, false);
    // the first arm
    lemma_control_flow_pattern_tokens("Continue", "value", span);
    let arrow = seq![word("=>", span), word("value", span), word(",", span)];
    lemma_stream_tokens_push(empty, word("=>", span), false);
    lemma_stream_tokens_push(empty.push(word("=>", span)), word("value", span), false);
    lemma_stream_tokens_push(
        empty.push(word("=>", span)).push(word("value", span)),
        word(",", span),
        false,
    );
    assert(empty.push(word("=>", span)).push(word("value", span)).push(word(",", span)) =~= arrow);
    lemma_stream_tokens_add(control_flow_pattern("Continue", "value", span), arrow, false);
    // the statement in the second arm
    let call = seq![
        enclosed(Delimiter::Parenthesis, seq![word("err", span)], span),
        word(";", span),
    ];
    lemma_stream_tokens_push(empty, word("return", span), false);
    lemma_from_residual_path_tokens(span, false);
    lemma_word_in_parentheses_tokens("err", span, false);
    lemma_stream_tokens_push(empty, call[0], false);
    lemma_stream_tokens_push(empty.push(call[0]), word(";", span), false);
    assert(empty.push(call[0]).push(word(";", span)) =~= call);
    lemma_stream_tokens_add(seq![word("return", span)], from_residual_path(span), false);
    lemma_stream_tokens_add(
        seq![word("return", span)] + from_residual_path(span),
        call,
        false,
    );
    // the second arm
    lemma_control_flow_pattern_tokens("Break", "err", span);
    let body = enclosed(Delimiter::Brace, return_statement(span), span);
    lemma_tree_tokens(body, false);
    let then = seq![word("=>", span), body];
    lemma_stream_tokens_push(empty.push(word("=>", span)), body, false);
    assert(empty.push(word("=>", span)).push(body) =~= then);
    lemma_stream_tokens_add(control_flow_pattern("Break", "err", span), then, false);
    lemma_stream_tokens_add(continue_arm(span), break_arm(span), false);
}

/// Every token that the rewrite writes stands at the `?` that it replaces.
///
/// The tokens of an expansion are the attributes of the `?`, then
/// [`expansion_head`], then the tokens of the operand, then
/// [`expansion_tail`]; and each token of the head and of the tail stands at
/// the place of the `?`.
pub proof fn lemma_expansion_tokens(attrs: Seq<AttributeView>, operand: ExprView, span: Span)
    ensures
        expr_tokens(expansion(attrs, operand, span)) == attributes_tokens(attrs) + expansion_head(
            span,
        ) + expr_tokens(operand) + expansion_tail(span),
        forall|i: int|
            0 <= i < expansion_head(span).len() ==> (#[trigger] expansion_head(span)[i]).span
                == span,
        forall|i: int|
            0 <= i < expansion_tail(span).len() ==> (#[trigger] expansion_tail(span)[i]).span
                == span,
{
    let empty = Seq::<TreeView>::empty();
    let slot = TreeView::Expr(operand);
    let argument = enclosed(Delimiter::Parenthesis, seq![slot], span);
    lemma_branch_path_tokens(span, true);
    lemma_stream_tokens_push(empty, slot, false);
    lemma_stream_tokens_push(branch_path(span), argument, true);
    lemma_arms_tokens(span);
    lemma_tree_tokens(argument, true);
    let call = branch_call(operand, span);
    lemma_expr_tokens(expansion(attrs, operand, span));
    assert(expr_tokens(call) =~= expansion_head(span).subrange(1, 8) + expr_tokens(operand)
        + seq![mark(")", span)]);
}

} // verus!
