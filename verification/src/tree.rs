//! The syntax tree that the rewrite works on.
//!
//! The tree gives structure to expressions and to nothing else. An item or a
//! block is a stream: the tokens and groups it was written with, and each
//! expression in it as one member in its place. An expression is a `?` with
//! its operand, a `match`, or anything else; anything else is again a stream,
//! the tokens of the expression with its operands among them. So a `?` can be
//! found and replaced at any depth without the rest being understood.
//!
//! Every type has a view, which is what the contracts speak of: the same
//! tree with `Seq` in place of `Vec` and the text of a token as `Seq<char>`.

use vstd::prelude::*;
use crate::token::{Attribute, AttributeView, Delimiter, Span, Token, TokenView, attributes_view};

verus! {

/// One member of a stream: a token, a group, or an expression.
#[derive(Debug, PartialEq, Eq)]
pub enum Tree {
    /// A single token.
    Token(Token),
    /// A stream between delimiters.
    Group(Group),
    /// An expression that stands at this place.
    Expr(Expr),
}

/// A stream between delimiters, which stand at `span`.
#[derive(Debug, PartialEq, Eq)]
pub struct Group {
    pub delimiter: Delimiter,
    pub span: Span,
    pub stream: Vec<Tree>,
}

/// An expression.
#[derive(Debug, PartialEq, Eq)]
pub enum Expr {
    /// `operand?`
    Try(ExprTry),
    /// `match scrutinee { arms }`
    Match(ExprMatch),
    /// Any other expression: its own tokens, with its operands among them.
    /// With no member at all it is the empty expression, which stands in
    /// where an expression has been taken out.
    Verbatim(Vec<Tree>),
}

/// An expression followed by `?`: leave the enclosing function early if the
/// operand says so, go on with its value if not. `question_token` is the
/// place of the `?`.
#[derive(Debug, PartialEq, Eq)]
pub struct ExprTry {
    pub attrs: Vec<Attribute>,
    pub expr: Box<Expr>,
    pub question_token: Span,
}

/// A `match` expression: `expr` is what is matched on, `arms` is what stands
/// between the braces.
#[derive(Debug, PartialEq, Eq)]
pub struct ExprMatch {
    pub attrs: Vec<Attribute>,
    pub match_token: Span,
    pub expr: Box<Expr>,
    pub brace_token: Span,
    pub arms: Vec<Tree>,
}

/// A declaration, such as a function: its tokens, with the expressions in it
/// standing among them.
#[derive(Debug, PartialEq, Eq)]
pub struct Item {
    pub stream: Vec<Tree>,
}

/// A sequence of statements between braces.
#[derive(Debug, PartialEq, Eq)]
pub struct Block {
    pub brace_token: Span,
    pub stmts: Vec<Tree>,
}

/// What a [`Tree`] is to a contract.
pub enum TreeView {
    Token(TokenView),
    Group(GroupView),
    Expr(ExprView),
}

/// What a [`Group`] is to a contract.
pub struct GroupView {
    pub delimiter: Delimiter,
    pub span: Span,
    pub stream: Seq<TreeView>,
}

/// What an [`Expr`] is to a contract.
pub enum ExprView {
    Try(ExprTryView),
    Match(ExprMatchView),
    Verbatim(Seq<TreeView>),
}

/// What an [`ExprTry`] is to a contract.
pub struct ExprTryView {
    pub attrs: Seq<AttributeView>,
    pub expr: Box<ExprView>,
    pub question_token: Span,
}

/// What an [`ExprMatch`] is to a contract.
pub struct ExprMatchView {
    pub attrs: Seq<AttributeView>,
    pub match_token: Span,
    pub expr: Box<ExprView>,
    pub brace_token: Span,
    pub arms: Seq<TreeView>,
}

/// What an [`Item`] is to a contract.
pub struct ItemView {
    pub stream: Seq<TreeView>,
}

/// What a [`Block`] is to a contract.
pub struct BlockView {
    pub brace_token: Span,
    pub stmts: Seq<TreeView>,
}

/// What a sequence of trees is to a contract: the views of its members, in order.
pub open spec fn stream_view(stream: Seq<Tree>) -> Seq<TreeView>
    decreases stream, 0nat,
{
    Seq::new(
        stream.len(),
        |i: int|
            if 0 <= i < stream.len() {
                tree_view(stream[i])
            } else {
                arbitrary()
            },
    )
}

/// The view of a [`Tree`].
pub open spec fn tree_view(tree: Tree) -> TreeView
    decreases tree, 0nat,
{
    match tree {
        Tree::Token(token) => TreeView::Token(token@),
        Tree::Group(group) => TreeView::Group(
            GroupView {
                delimiter: group.delimiter,
                span: group.span,
                stream: stream_view(group.stream@),
            },
        ),
        Tree::Expr(expr) => TreeView::Expr(expr_view(expr)),
    }
}

/// The view of an [`Expr`].
pub open spec fn expr_view(expr: Expr) -> ExprView
    decreases expr, 0nat,
{
    match expr {
        Expr::Try(expr_try) => ExprView::Try(
            ExprTryView {
                attrs: attributes_view(expr_try.attrs@),
                expr: Box::new(expr_view(*expr_try.expr)),
                question_token: expr_try.question_token,
            },
        ),
        Expr::Match(expr_match) => ExprView::Match(
            ExprMatchView {
                attrs: attributes_view(expr_match.attrs@),
                match_token: expr_match.match_token,
                expr: Box::new(expr_view(*expr_match.expr)),
                brace_token: expr_match.brace_token,
                arms: stream_view(expr_match.arms@),
            },
        ),
        Expr::Verbatim(stream) => ExprView::Verbatim(stream_view(stream@)),
    }
}

/// The view of a stream with one more tree at its end.
pub proof fn lemma_stream_view_push(stream: Seq<Tree>, tree: Tree)
    ensures
        stream_view(stream.push(tree)) == stream_view(stream).push(tree_view(tree)),
{
}

impl View for Tree {
    type V = TreeView;

    open spec fn view(&self) -> TreeView {
        tree_view(*self)
    }
}

impl View for Expr {
    type V = ExprView;

    open spec fn view(&self) -> ExprView {
        expr_view(*self)
    }
}

impl View for ExprTry {
    type V = ExprTryView;

    open spec fn view(&self) -> ExprTryView {
        ExprTryView {
            attrs: attributes_view(self.attrs@),
            expr: Box::new(expr_view(*self.expr)),
            question_token: self.question_token,
        }
    }
}

impl View for ExprMatch {
    type V = ExprMatchView;

    open spec fn view(&self) -> ExprMatchView {
        ExprMatchView {
            attrs: attributes_view(self.attrs@),
            match_token: self.match_token,
            expr: Box::new(expr_view(*self.expr)),
            brace_token: self.brace_token,
            arms: stream_view(self.arms@),
        }
    }
}

impl View for Group {
    type V = GroupView;

    open spec fn view(&self) -> GroupView {
        GroupView { delimiter: self.delimiter, span: self.span, stream: stream_view(self.stream@) }
    }
}

impl View for Item {
    type V = ItemView;

    open spec fn view(&self) -> ItemView {
        ItemView { stream: stream_view(self.stream@) }
    }
}

impl View for Block {
    type V = BlockView;

    open spec fn view(&self) -> BlockView {
        BlockView { brace_token: self.brace_token, stmts: stream_view(self.stmts@) }
    }
}

} // verus!
