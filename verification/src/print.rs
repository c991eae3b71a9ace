//! A tree written out again: as token trees, as tokens, and as text.
//!
//! The token trees of a syntax tree are those it was built from, in their
//! order. A `match` that stands as an operand, among the tokens of another
//! expression or under a `?`, is put between parentheses, so that what is
//! written reads as the tree is built. The parentheses belong to no token of
//! the source, and stand at the call site. An expression that stands in a
//! group, an item or a block by itself is written as it is: there it is a
//! whole statement, argument or initialiser. Whoever builds a tree gives an
//! expression that is followed by more of its statement, as the initialiser
//! in front of the `else` of a `let`, an expression of its own to stand in as
//! an operand.

use vstd::prelude::*;
use vstd::string::StringExecFns;
use crate::token::{
    Attribute, AttributeView, Delimiter, Span, Token, TokenGroup, TokenGroupView, TokenTree,
    TokenTreeView, TokenView, attributes_view, duplicate_stream, mark, token_stream_view,
    tokens_view,
};
use crate::tree::{Block, BlockView, Expr, ExprView, Item, ItemView, Tree, TreeView, stream_view};

verus! {

/// The token `text` at `span`, as a token tree.
pub open spec fn leaf(text: &str, span: Span) -> TokenTreeView {
    TokenTreeView::Token(mark(text, span))
}

/// `stream` between delimiters of the given kind, which stand at `span`.
pub open spec fn delimited(delimiter: Delimiter, stream: Seq<TokenTreeView>, span: Span)
    -> TokenTreeView {
    TokenTreeView::Group(TokenGroupView { delimiter, span, stream })
}

/// One attribute as token trees: `#`, and what it holds between brackets.
pub open spec fn unparsed_attribute(attr: AttributeView) -> Seq<TokenTreeView> {
    seq![leaf("#", attr.pound_token), delimited(Delimiter::Bracket, attr.meta, attr.bracket_token)]
}

/// A run of attributes as token trees, one attribute after the other.
pub open spec fn unparsed_attributes(attrs: Seq<AttributeView>) -> Seq<TokenTreeView>
    decreases attrs.len(),
{
    if attrs.len() == 0 {
        Seq::empty()
    } else {
        unparsed_attributes(attrs.drop_last()) + unparsed_attribute(attrs.last())
    }
}

/// A stream as token trees. `operand` says that the stream is the body of an
/// expression, so that the expressions in it are its operands.
pub open spec fn unparsed_stream(stream: Seq<TreeView>, operand: bool) -> Seq<TokenTreeView>
    decreases stream, 0nat,
{
    if stream.len() == 0 {
        Seq::empty()
    } else {
        unparsed_stream(stream.drop_last(), operand) + unparsed_tree(stream.last(), operand)
    }
}

/// One member of a stream as token trees.
pub open spec fn unparsed_tree(tree: TreeView, operand: bool) -> Seq<TokenTreeView>
    decreases tree, 0nat,
{
    match tree {
        TreeView::Token(token) => seq![TokenTreeView::Token(token)],
        TreeView::Group(group) => seq![
            delimited(group.delimiter, unparsed_stream(group.stream, false), group.span),
        ],
        TreeView::Expr(expr) => if operand {
            unparsed_operand(expr)
        } else {
            unparsed_expr(expr)
        },
    }
}

/// An expression that stands as an operand, as token trees: those of the
/// expression, between parentheses where it is a `match`. The parentheses
/// stand at the call site.
pub open spec fn unparsed_operand(expr: ExprView) -> Seq<TokenTreeView>
    decreases expr, 1nat,
{
    match expr {
        ExprView::Match(_) => seq![
            delimited(Delimiter::Parenthesis, unparsed_expr(expr), Span::call_site()),
        ],
        _ => unparsed_expr(expr),
    }
}

/// An expression as token trees.
pub open spec fn unparsed_expr(expr: ExprView) -> Seq<TokenTreeView>
    decreases expr, 0nat,
{
    match expr {
        ExprView::Try(expr_try) => unparsed_attributes(expr_try.attrs) + unparsed_operand(
            *expr_try.expr,
        ) + seq![leaf("?", expr_try.question_token)],
        ExprView::Match(expr_match) => unparsed_attributes(expr_match.attrs) + seq![
            leaf("match", expr_match.match_token),
        ] + unparsed_expr(*expr_match.expr) + seq![
            delimited(
                Delimiter::Brace,
                unparsed_stream(expr_match.arms, false),
                expr_match.brace_token,
            ),
        ],
        ExprView::Verbatim(stream) => unparsed_stream(stream, true),
    }
}

/// An item as token trees.
pub open spec fn unparsed_item(item: ItemView) -> Seq<TokenTreeView> {
    unparsed_stream(item.stream, false)
}

/// A block as token trees: one group, the statements between the braces.
pub open spec fn unparsed_block(block: BlockView) -> Seq<TokenTreeView> {
    seq![delimited(Delimiter::Brace, unparsed_stream(block.stmts, false), block.brace_token)]
}

/// What is written to open a group: one token, or none where the delimiter is
/// invisible.
pub open spec fn opening(delimiter: Delimiter, span: Span) -> Seq<TokenView> {
    match delimiter {
        Delimiter::Parenthesis => seq![mark("(", span)],
        Delimiter::Brace => seq![mark("{", span)],
        Delimiter::Bracket => seq![mark("[", span)],
        Delimiter::Invisible => Seq::empty(),
    }
}

/// What is written to close a group.
pub open spec fn closing(delimiter: Delimiter, span: Span) -> Seq<TokenView> {
    match delimiter {
        Delimiter::Parenthesis => seq![mark(")", span)],
        Delimiter::Brace => seq![mark("}", span)],
        Delimiter::Bracket => seq![mark("]", span)],
        Delimiter::Invisible => Seq::empty(),
    }
}

/// The tokens of a stream of token trees, in order, each group between the
/// tokens that open and close it.
pub open spec fn flat_stream(stream: Seq<TokenTreeView>) -> Seq<TokenView>
    decreases stream,
{
    if stream.len() == 0 {
        Seq::empty()
    } else {
        flat_stream(stream.drop_last()) + flat_tree(stream.last())
    }
}

/// The tokens of one token tree.
pub open spec fn flat_tree(tree: TokenTreeView) -> Seq<TokenView>
    decreases tree,
{
    match tree {
        TokenTreeView::Token(token) => seq![token],
        TokenTreeView::Group(group) => opening(group.delimiter, group.span) + flat_stream(
            group.stream,
        ) + closing(group.delimiter, group.span),
    }
}

/// The tokens of a stream of trees, in order.
pub open spec fn stream_tokens(stream: Seq<TreeView>, operand: bool) -> Seq<TokenView> {
    flat_stream(unparsed_stream(stream, operand))
}

/// The tokens of one member of a stream of trees.
pub open spec fn tree_tokens(tree: TreeView, operand: bool) -> Seq<TokenView> {
    flat_stream(unparsed_tree(tree, operand))
}

/// The tokens of an expression, in order.
pub open spec fn expr_tokens(expr: ExprView) -> Seq<TokenView> {
    flat_stream(unparsed_expr(expr))
}

/// The tokens of an expression that stands as an operand, in order.
pub open spec fn operand_tokens(expr: ExprView) -> Seq<TokenView> {
    flat_stream(unparsed_operand(expr))
}

/// The tokens of a run of attributes, in order.
pub open spec fn attributes_tokens(attrs: Seq<AttributeView>) -> Seq<TokenView> {
    flat_stream(unparsed_attributes(attrs))
}

/// The tokens of an item, in order.
pub open spec fn item_tokens(item: ItemView) -> Seq<TokenView> {
    flat_stream(unparsed_item(item))
}

/// The tokens of a block, in order.
pub open spec fn block_tokens(block: BlockView) -> Seq<TokenView> {
    flat_stream(unparsed_block(block))
}

/// The texts of the tokens, one blank between each two.
pub open spec fn source_text(tokens: Seq<TokenView>) -> Seq<char>
    decreases tokens.len(),
{
    if tokens.len() == 0 {
        Seq::empty()
    } else if tokens.len() == 1 {
        tokens[0].text
    } else {
        source_text(tokens.drop_last()) + " "@ + tokens.last().text
    }
}

/// The text of an item.
pub open spec fn item_text(item: ItemView) -> Seq<char> {
    source_text(item_tokens(item))
}

/// The text of a block.
pub open spec fn block_text(block: BlockView) -> Seq<char> {
    source_text(block_tokens(block))
}

/// A stream with one more tree at its end, as token trees.
pub proof fn lemma_unparsed_stream_push(stream: Seq<TreeView>, tree: TreeView, operand: bool)
    ensures
        unparsed_stream(stream.push(tree), operand) == unparsed_stream(stream, operand)
            + unparsed_tree(tree, operand),
{
    assert(stream.push(tree).drop_last() =~= stream);
}

/// Two streams, one after the other, as token trees.
pub proof fn lemma_unparsed_stream_add(front: Seq<TreeView>, back: Seq<TreeView>, operand: bool)
    ensures
        unparsed_stream(front + back, operand) == unparsed_stream(front, operand)
            + unparsed_stream(back, operand),
    decreases back.len(),
{
    if back.len() == 0 {
    } else {
        lemma_unparsed_stream_add(front, back.drop_last(), operand);
        assert((front + back).drop_last() =~= front + back.drop_last());
    }
}

/// The tokens of two streams of token trees, one after the other.
pub proof fn lemma_flat_stream_add(front: Seq<TokenTreeView>, back: Seq<TokenTreeView>)
    ensures
        flat_stream(front + back) == flat_stream(front) + flat_stream(back),
    decreases back.len(),
{
    if back.len() == 0 {
    } else {
        lemma_flat_stream_add(front, back.drop_last());
        assert((front + back).drop_last() =~= front + back.drop_last());
    }
}

/// The tokens of a single token tree, taken as a stream.
pub proof fn lemma_flat_stream_one(tree: TokenTreeView)
    ensures
        flat_stream(seq![tree]) == flat_tree(tree),
{
    assert(seq![tree].drop_last() =~= Seq::<TokenTreeView>::empty());
    assert(flat_stream(Seq::<TokenTreeView>::empty()) =~= Seq::<TokenView>::empty());
}

/// The tokens of one member of a stream of trees: the token itself; the
/// tokens of the members of a group between those that open and close it;
/// the tokens of an expression.
pub proof fn lemma_tree_tokens(tree: TreeView, operand: bool)
    ensures
        tree_tokens(tree, operand) == match tree {
            TreeView::Token(token) => seq![token],
            TreeView::Group(group) => opening(group.delimiter, group.span) + stream_tokens(
                group.stream,
                false,
            ) + closing(group.delimiter, group.span),
            TreeView::Expr(expr) => if operand {
                operand_tokens(expr)
            } else {
                expr_tokens(expr)
            },
        },
{
    match tree {
        TreeView::Token(token) => {
            lemma_flat_stream_one(TokenTreeView::Token(token));
        },
        TreeView::Group(group) => {
            lemma_flat_stream_one(
                delimited(group.delimiter, unparsed_stream(group.stream, false), group.span),
            );
        },
        TreeView::Expr(_) => {},
    }
}

/// The tokens of an expression that stands as an operand: those of the
/// expression, between parentheses where it is a `match`.
pub proof fn lemma_operand_tokens(expr: ExprView)
    ensures
        operand_tokens(expr) == match expr {
            ExprView::Match(_) => seq![mark("(", Span::call_site())] + expr_tokens(expr) + seq![
                mark(")", Span::call_site()),
            ],
            _ => expr_tokens(expr),
        },
{
    if expr is Match {
        lemma_flat_stream_one(
            delimited(Delimiter::Parenthesis, unparsed_expr(expr), Span::call_site()),
        );
    }
}

/// The tokens of an expression. Those of a `?` are its attributes, its
/// operand and `?`. Those of a `match` are its attributes, `match`, what is
/// matched on, and the arms between braces. Those of any other expression are
/// the tokens of its stream.
pub proof fn lemma_expr_tokens(expr: ExprView)
    ensures
        expr_tokens(expr) == match expr {
            ExprView::Try(expr_try) => attributes_tokens(expr_try.attrs) + operand_tokens(
                *expr_try.expr,
            ) + seq![mark("?", expr_try.question_token)],
            ExprView::Match(expr_match) => attributes_tokens(expr_match.attrs) + seq![
                mark("match", expr_match.match_token),
            ] + expr_tokens(*expr_match.expr) + seq![mark("{", expr_match.brace_token)]
                + stream_tokens(expr_match.arms, false) + seq![
                mark("}", expr_match.brace_token),
            ],
            ExprView::Verbatim(stream) => stream_tokens(stream, true),
        },
{
    match expr {
        ExprView::Try(expr_try) => {
            let attrs = unparsed_attributes(expr_try.attrs);
            let operand = unparsed_operand(*expr_try.expr);
            let mark = leaf("?", expr_try.question_token);
            lemma_flat_stream_add(attrs, operand);
            lemma_flat_stream_add(attrs + operand, seq![mark]);
            lemma_flat_stream_one(mark);
        },
        ExprView::Match(expr_match) => {
            let attrs = unparsed_attributes(expr_match.attrs);
            let keyword = leaf("match", expr_match.match_token);
            let scrutinee = unparsed_expr(*expr_match.expr);
            let arms = delimited(
                Delimiter::Brace,
                unparsed_stream(expr_match.arms, false),
                expr_match.brace_token,
            );
            lemma_flat_stream_add(attrs, seq![keyword]);
            lemma_flat_stream_add(attrs + seq![keyword], scrutinee);
            lemma_flat_stream_add(attrs + seq![keyword] + scrutinee, seq![arms]);
            lemma_flat_stream_one(keyword);
            lemma_flat_stream_one(arms);
        },
        ExprView::Verbatim(_) => {},
    }
}

/// The tokens of a stream of trees with one more tree at its end.
pub proof fn lemma_stream_tokens_push(stream: Seq<TreeView>, tree: TreeView, operand: bool)
    ensures
        stream_tokens(stream.push(tree), operand) == stream_tokens(stream, operand) + tree_tokens(
            tree,
            operand,
        ),
{
    lemma_unparsed_stream_push(stream, tree, operand);
    lemma_flat_stream_add(unparsed_stream(stream, operand), unparsed_tree(tree, operand));
}

/// The tokens of two streams of trees, one after the other.
pub proof fn lemma_stream_tokens_add(front: Seq<TreeView>, back: Seq<TreeView>, operand: bool)
    ensures
        stream_tokens(front + back, operand) == stream_tokens(front, operand) + stream_tokens(
            back,
            operand,
        ),
{
    lemma_unparsed_stream_add(front, back, operand);
    lemma_flat_stream_add(unparsed_stream(front, operand), unparsed_stream(back, operand));
}

fn push_leaf(out: &mut Vec<TokenTree>, text: &str, span: Span)
    ensures
        token_stream_view(final(out)@) == token_stream_view(old(out)@) + seq![leaf(text, span)],
{
    let tree = TokenTree::Token(Token::new(text, span));
    out.push(tree);
}

fn push_delimited(
    out: &mut Vec<TokenTree>,
    delimiter: Delimiter,
    stream: Vec<TokenTree>,
    span: Span,
)
    ensures
        token_stream_view(final(out)@) == token_stream_view(old(out)@) + seq![
            delimited(delimiter, token_stream_view(stream@), span),
        ],
{
    let tree = TokenTree::Group(TokenGroup { delimiter, span, stream });
    out.push(tree);
}

fn push_attributes(out: &mut Vec<TokenTree>, attrs: &Vec<Attribute>)
    ensures
        token_stream_view(final(out)@) == token_stream_view(old(out)@) + unparsed_attributes(
            attributes_view(attrs@),
        ),
{
    let ghost views = attributes_view(attrs@);
    let mut i: usize = 0;
    while i < attrs.len()
        invariant
            i <= attrs.len(),
            views == attributes_view(attrs@),
            token_stream_view(out@) == token_stream_view(old(out)@) + unparsed_attributes(
                views.take(i as int),
            ),
        decreases attrs.len() - i,
    {
        let attr = &attrs[i];
        push_leaf(out, "#", attr.pound_token);
        push_delimited(out, Delimiter::Bracket, duplicate_stream(&attr.meta), attr.bracket_token);
        proof {
            let next = views.take(i + 1);
            assert(next.drop_last() =~= views.take(i as int));
        }
        i = i + 1;
    }
    assert(views.take(i as int) =~= views);
}

impl Expr {
    /// Appends this expression to `out`, as token trees.
    fn push_token_trees(&self, out: &mut Vec<TokenTree>)
        ensures
            token_stream_view(final(out)@) == token_stream_view(old(out)@) + unparsed_expr(self@),
        decreases self, 0nat,
    {
        match self {
            Expr::Try(expr_try) => {
                push_attributes(out, &expr_try.attrs);
                expr_try.expr.push_operand_token_trees(out);
                push_leaf(out, "?", expr_try.question_token);
            },
            Expr::Match(expr_match) => {
                push_attributes(out, &expr_match.attrs);
                push_leaf(out, "match", expr_match.match_token);
                expr_match.expr.push_token_trees(out);
                let arms = stream_to_token_stream(&expr_match.arms, false);
                push_delimited(out, Delimiter::Brace, arms, expr_match.brace_token);
            },
            Expr::Verbatim(stream) => {
                push_stream_token_trees(stream, true, out);
            },
        }
    }

    /// Appends this expression, taken as an operand, to `out`, as token trees.
    fn push_operand_token_trees(&self, out: &mut Vec<TokenTree>)
        ensures
            token_stream_view(final(out)@) == token_stream_view(old(out)@) + unparsed_operand(
                self@,
            ),
        decreases self, 2nat,
    {
        match self {
            Expr::Match(_) => {
                let inner = self.to_token_stream();
                push_delimited(out, Delimiter::Parenthesis, inner, Span::call_site());
            },
            _ => {
                self.push_token_trees(out);
            },
        }
    }

    /// This expression as token trees.
    pub fn to_token_stream(&self) -> (stream: Vec<TokenTree>)
        ensures
            token_stream_view(stream@) == unparsed_expr(self@),
        decreases self, 1nat,
    {
        let mut stream: Vec<TokenTree> = Vec::new();
        self.push_token_trees(&mut stream);
        stream
    }
}

impl Tree {
    /// Appends this tree to `out`, as token trees. `operand` says that the
    /// tree stands among the tokens of an expression.
    fn push_token_trees(&self, operand: bool, out: &mut Vec<TokenTree>)
        ensures
            token_stream_view(final(out)@) == token_stream_view(old(out)@) + unparsed_tree(
                self@,
                operand,
            ),
        decreases self, 0nat,
    {
        match self {
            Tree::Token(token) => {
                let copy = TokenTree::Token(token.duplicate());
                out.push(copy);
            },
            Tree::Group(group) => {
                let inner = stream_to_token_stream(&group.stream, false);
                push_delimited(out, group.delimiter, inner, group.span);
            },
            Tree::Expr(expr) => {
                if operand {
                    expr.push_operand_token_trees(out);
                } else {
                    expr.push_token_trees(out);
                }
            },
        }
    }
}

/// Appends a stream to `out`, as token trees.
fn push_stream_token_trees(stream: &Vec<Tree>, operand: bool, out: &mut Vec<TokenTree>)
    ensures
        token_stream_view(final(out)@) == token_stream_view(old(out)@) + unparsed_stream(
            stream_view(stream@),
            operand,
        ),
    decreases stream, 0nat,
{
    let ghost views = stream_view(stream@);
    let mut i: usize = 0;
    while i < stream.len()
        invariant
            i <= stream.len(),
            views == stream_view(stream@),
            token_stream_view(out@) == token_stream_view(old(out)@) + unparsed_stream(
                views.take(i as int),
                operand,
            ),
        decreases stream.len() - i,
    {
        stream[i].push_token_trees(operand, out);
        proof {
            let next = views.take(i + 1);
            assert(next.drop_last() =~= views.take(i as int));
        }
        i = i + 1;
    }
    assert(views.take(i as int) =~= views);
}

/// A stream as token trees.
pub fn stream_to_token_stream(stream: &Vec<Tree>, operand: bool) -> (out: Vec<TokenTree>)
    ensures
        token_stream_view(out@) == unparsed_stream(stream_view(stream@), operand),
    decreases stream, 1nat,
{
    let mut out: Vec<TokenTree> = Vec::new();
    push_stream_token_trees(stream, operand, &mut out);
    out
}

fn push_opening(out: &mut Vec<Token>, delimiter: Delimiter, span: Span)
    ensures
        tokens_view(final(out)@) == tokens_view(old(out)@) + opening(delimiter, span),
{
    let text = match delimiter {
        Delimiter::Parenthesis => "(",
        Delimiter::Brace => "{",
        Delimiter::Bracket => "[",
        Delimiter::Invisible => {
            return ;
        },
    };
    let token = Token::new(text, span);
    out.push(token);
}

fn push_closing(out: &mut Vec<Token>, delimiter: Delimiter, span: Span)
    ensures
        tokens_view(final(out)@) == tokens_view(old(out)@) + closing(delimiter, span),
{
    let text = match delimiter {
        Delimiter::Parenthesis => ")",
        Delimiter::Brace => "}",
        Delimiter::Bracket => "]",
        Delimiter::Invisible => {
            return ;
        },
    };
    let token = Token::new(text, span);
    out.push(token);
}

impl TokenTree {
    /// Appends the tokens of this token tree to `out`.
    fn push_tokens(&self, out: &mut Vec<Token>)
        ensures
            tokens_view(final(out)@) == tokens_view(old(out)@) + flat_tree(self@),
        decreases self,
    {
        match self {
            TokenTree::Token(token) => {
                let copy = token.duplicate();
                out.push(copy);
            },
            TokenTree::Group(group) => {
                push_opening(out, group.delimiter, group.span);
                push_stream_tokens(&group.stream, out);
                push_closing(out, group.delimiter, group.span);
            },
        }
    }
}

/// Appends the tokens of a stream of token trees to `out`.
fn push_stream_tokens(stream: &Vec<TokenTree>, out: &mut Vec<Token>)
    ensures
        tokens_view(final(out)@) == tokens_view(old(out)@) + flat_stream(
            token_stream_view(stream@),
        ),
    decreases stream,
{
    let ghost views = token_stream_view(stream@);
    let mut i: usize = 0;
    while i < stream.len()
        invariant
            i <= stream.len(),
            views == token_stream_view(stream@),
            tokens_view(out@) == tokens_view(old(out)@) + flat_stream(views.take(i as int)),
        decreases stream.len() - i,
    {
        stream[i].push_tokens(out);
        proof {
            let next = views.take(i + 1);
            assert(next.drop_last() =~= views.take(i as int));
        }
        i = i + 1;
    }
    assert(views.take(i as int) =~= views);
}

/// The tokens of a stream of token trees, in order, each group between the
/// tokens that open and close it.
pub fn flatten(stream: &Vec<TokenTree>) -> (tokens: Vec<Token>)
    ensures
        tokens_view(tokens@) == flat_stream(token_stream_view(stream@)),
{
    let mut tokens: Vec<Token> = Vec::new();
    push_stream_tokens(stream, &mut tokens);
    tokens
}

/// Writes tokens out as text, one blank between each two.
pub fn to_source(tokens: &Vec<Token>) -> (text: String)
    ensures
        text@ == source_text(tokens_view(tokens@)),
{
    let ghost views = tokens_view(tokens@);
    let mut text = String::new();
    let mut i: usize = 0;
    while i < tokens.len()
        invariant
            i <= tokens.len(),
            views == tokens_view(tokens@),
            text@ == source_text(views.take(i as int)),
        decreases tokens.len() - i,
    {
        proof {
            let next = views.take(i + 1);
            assert(next.drop_last() =~= views.take(i as int));
        }
        if i > 0 {
            text.append(" ");
        }
        text.append(tokens[i].text.as_str());
        i = i + 1;
    }
    assert(views.take(i as int) =~= views);
    text
}

impl Item {
    /// This item as token trees.
    pub fn to_token_stream(&self) -> (stream: Vec<TokenTree>)
        ensures
            token_stream_view(stream@) == unparsed_item(self@),
    {
        stream_to_token_stream(&self.stream, false)
    }

    /// This item as text.
    pub fn to_source(&self) -> (text: String)
        ensures
            text@ == item_text(self@),
    {
        to_source(&flatten(&self.to_token_stream()))
    }
}

impl Block {
    /// This block as token trees: one group, the statements between the
    /// braces.
    pub fn to_token_stream(&self) -> (stream: Vec<TokenTree>)
        ensures
            token_stream_view(stream@) == unparsed_block(self@),
    {
        let mut stream: Vec<TokenTree> = Vec::new();
        let stmts = stream_to_token_stream(&self.stmts, false);
        push_delimited(&mut stream, Delimiter::Brace, stmts, self.brace_token);
        stream
    }

    /// This block as text.
    pub fn to_source(&self) -> (text: String)
        ensures
            text@ == block_text(self@),
    {
        to_source(&flatten(&self.to_token_stream()))
    }
}

} // verus!
