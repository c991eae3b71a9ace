//! What a `?` is replaced with.
//!
//! `operand?` becomes
//!
//! ```text
//! match ::try_macro::Try::branch(operand) {
//!     ::core::ops::ControlFlow::Continue(value) => value,
//!     ::core::ops::ControlFlow::Break(err) => {
//!         return ::try_macro::FromResidual::from_residual(err);
//!     }
//! }
//! ```
//!
//! with the attributes of the `?` in front of the `match`, and with every token
//! that was not in the operand or in an attribute placed at the `?`.

use vstd::prelude::*;
use crate::token::{Attribute, AttributeView, Delimiter, Span, Token, TokenView, attributes_view};
use crate::tree::{
    Expr, ExprMatch, ExprMatchView, ExprTry, ExprTryView, ExprView, Group, GroupView, Tree,
    TreeView, lemma_stream_view_push, stream_view,
};

verus! {

/// The token `text` at `span`, as a member of a stream.
pub open spec fn word(text: &str, span: Span) -> TreeView {
    TreeView::Token(TokenView { text: text@, span })
}

/// `stream` between brackets of the given kind, the brackets at `span`.
pub open spec fn enclosed(delimiter: Delimiter, stream: Seq<TreeView>, span: Span) -> TreeView {
    TreeView::Group(GroupView { delimiter, span, stream })
}

/// `::name`
pub open spec fn segment(name: &str, span: Span) -> Seq<TreeView> {
    seq![word("::", span), word(name, span)]
}

/// `::try_macro::Try::branch`
pub open spec fn branch_path(span: Span) -> Seq<TreeView> {
    segment("try_macro", span) + segment("Try", span) + segment("branch", span)
}

/// `::try_macro::FromResidual::from_residual`
pub open spec fn from_residual_path(span: Span) -> Seq<TreeView> {
    segment("try_macro", span) + segment("FromResidual", span) + segment("from_residual", span)
}

/// `::core::ops::ControlFlow::variant`
pub open spec fn control_flow_path(variant: &str, span: Span) -> Seq<TreeView> {
    segment("core", span) + segment("ops", span) + segment("ControlFlow", span) + segment(
        variant,
        span,
    )
}

/// `::core::ops::ControlFlow::variant(binding)`
pub open spec fn control_flow_pattern(variant: &str, binding: &str, span: Span) -> Seq<TreeView> {
    control_flow_path(variant, span).push(
        enclosed(Delimiter::Parenthesis, seq![word(binding, span)], span),
    )
}

/// `::try_macro::Try::branch(operand)`
pub open spec fn branch_call(operand: ExprView, span: Span) -> ExprView {
    ExprView::Verbatim(
        branch_path(span).push(
            enclosed(Delimiter::Parenthesis, seq![TreeView::Expr(operand)], span),
        ),
    )
}

/// `::core::ops::ControlFlow::Continue(value) => value,`
pub open spec fn continue_arm(span: Span) -> Seq<TreeView> {
    control_flow_pattern("Continue", "value", span) + seq![
        word("=>", span),
        word("value", span),
        word(",", span),
    ]
}

/// `return ::try_macro::FromResidual::from_residual(err);`
pub open spec fn return_statement(span: Span) -> Seq<TreeView> {
    seq![word("return", span)] + from_residual_path(span) + seq![
        enclosed(Delimiter::Parenthesis, seq![word("err", span)], span),
        word(";", span),
    ]
}

/// `::core::ops::ControlFlow::Break(err) => { return ...; }`
pub open spec fn break_arm(span: Span) -> Seq<TreeView> {
    control_flow_pattern("Break", "err", span) + seq![
        word("=>", span),
        enclosed(Delimiter::Brace, return_statement(span), span),
    ]
}

/// The expression that replaces a `?` at `span` whose attributes are `attrs`
/// and whose operand, with nothing left in it to replace, is `operand`.
pub open spec fn expansion(attrs: Seq<AttributeView>, operand: ExprView, span: Span) -> ExprView {
    ExprView::Match(
        ExprMatchView {
            attrs,
            match_token: span,
            expr: Box::new(branch_call(operand, span)),
            brace_token: span,
            arms: continue_arm(span) + break_arm(span),
        },
    )
}

fn push_word(stream: &mut Vec<Tree>, text: &str, span: Span)
    ensures
        stream_view(final(stream)@) == stream_view(old(stream)@).push(word(text, span)),
{
    let tree = Tree::Token(Token::new(text, span));
    stream.push(tree);
}

fn push_segment(stream: &mut Vec<Tree>, name: &str, span: Span)
    ensures
        stream_view(final(stream)@) == stream_view(old(stream)@) + segment(name, span),
{
    push_word(stream, "::", span);
    push_word(stream, name, span);
}

fn push_enclosed(stream: &mut Vec<Tree>, delimiter: Delimiter, inner: Vec<Tree>, span: Span)
    ensures
        stream_view(final(stream)@) == stream_view(old(stream)@).push(
            enclosed(delimiter, stream_view(inner@), span),
        ),
{
    let tree = Tree::Group(Group { delimiter, span, stream: inner });
    stream.push(tree);
}

fn push_control_flow_pattern(stream: &mut Vec<Tree>, variant: &str, binding: &str, span: Span)
    ensures
        stream_view(final(stream)@) == stream_view(old(stream)@) + control_flow_pattern(
            variant,
            binding,
            span,
        ),
{
    push_segment(stream, "core", span);
    push_segment(stream, "ops", span);
    push_segment(stream, "ControlFlow", span);
    push_segment(stream, variant, span);
    let mut inner: Vec<Tree> = Vec::new();
    assert(stream_view(inner@) =~= Seq::<TreeView>::empty());
    push_word(&mut inner, binding, span);
    push_enclosed(stream, Delimiter::Parenthesis, inner, span);
}

fn build_branch_call(operand: Expr, span: Span) -> (call: Expr)
    ensures
        call@ == branch_call(operand@, span),
{
    let mut stream: Vec<Tree> = Vec::new();
    assert(stream_view(stream@) =~= Seq::<TreeView>::empty());
    push_segment(&mut stream, "try_macro", span);
    push_segment(&mut stream, "Try", span);
    push_segment(&mut stream, "branch", span);
    let mut inner: Vec<Tree> = Vec::new();
    let slot = Tree::Expr(operand);
    proof {
        lemma_stream_view_push(inner@, slot);
    }
    inner.push(slot);
    push_enclosed(&mut stream, Delimiter::Parenthesis, inner, span);
    Expr::Verbatim(stream)
}

fn build_return_statement(span: Span) -> (stream: Vec<Tree>)
    ensures
        stream_view(stream@) == return_statement(span),
{
    let mut stream: Vec<Tree> = Vec::new();
    assert(stream_view(stream@) =~= Seq::<TreeView>::empty());
    push_word(&mut stream, "return", span);
    push_segment(&mut stream, "try_macro", span);
    push_segment(&mut stream, "FromResidual", span);
    push_segment(&mut stream, "from_residual", span);
    let mut inner: Vec<Tree> = Vec::new();
    push_word(&mut inner, "err", span);
    push_enclosed(&mut stream, Delimiter::Parenthesis, inner, span);
    push_word(&mut stream, ";", span);
    stream
}

fn build_arms(span: Span) -> (arms: Vec<Tree>)
    ensures
        stream_view(arms@) == continue_arm(span) + break_arm(span),
{
    let mut arms: Vec<Tree> = Vec::new();
    push_control_flow_pattern(&mut arms, "Continue", "value", span);
    push_word(&mut arms, "=>", span);
    push_word(&mut arms, "value", span);
    push_word(&mut arms, ",", span);
    push_control_flow_pattern(&mut arms, "Break", "err", span);
    push_word(&mut arms, "=>", span);
    let body = build_return_statement(span);
    push_enclosed(&mut arms, Delimiter::Brace, body, span);
    arms
}

/// Builds the expression that replaces a `?`: a `match` on the outcome of
/// `branch`, which hands on the value to go on with, or leaves the enclosing
/// function with what `from_residual` makes of the rest. The attributes are
/// those of the `?`, and every token written here stands at `span`.
pub fn expand(attrs: Vec<Attribute>, operand: Expr, span: Span) -> (replacement: Expr)
    ensures
        replacement@ == expansion(attributes_view(attrs@), operand@, span),
{
    let call = build_branch_call(operand, span);
    let arms = build_arms(span);
    Expr::Match(
        ExprMatch { attrs, match_token: span, expr: Box::new(call), brace_token: span, arms },
    )
}

/// A `?` with nothing in it: no attributes, an empty operand, no place of its
/// own. It fills the place of a `?` while its parts are being moved out.
pub fn default_expr_try() -> (expr_try: ExprTry)
    ensures
        expr_try@ == (ExprTryView {
            attrs: Seq::<AttributeView>::empty(),
            expr: Box::new(ExprView::Verbatim(Seq::<TreeView>::empty())),
            question_token: Span::call_site(),
        }),
{
    let expr_try = ExprTry {
        attrs: Vec::new(),
        expr: Box::new(Expr::Verbatim(Vec::new())),
        question_token: Span::call_site(),
    };
    assert(stream_view(Seq::<Tree>::empty()) =~= Seq::<TreeView>::empty());
    assert(attributes_view(Seq::<Attribute>::empty()) =~= Seq::<AttributeView>::empty());
    expr_try
}

} // verus!
