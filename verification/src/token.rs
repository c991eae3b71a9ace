//! Source positions, tokens, and token trees.

use vstd::prelude::*;

verus! {

/// A place in the source text.
///
/// A span says where a token came from. Diagnostics point at spans, and code
/// that the rewrite writes is stamped with the span of the `?` it replaces, so
/// that a later complaint about that code lands on the `?`. The rewrite
/// copies spans and never looks into one: what `lo` and `hi` count is up to
/// the one who builds the tree.
#[derive(Clone, Copy, Debug, PartialEq, Eq, Hash, Structural)]
pub struct Span {
    pub lo: u32,
    pub hi: u32,
}

impl Span {
    /// The span that stands for the place of the whole invocation: the one
    /// with both numbers 0.
    pub open spec fn spec_call_site() -> Span {
        Span { lo: 0, hi: 0 }
    }

    /// The span that stands for the place of the whole invocation. It is used
    /// where there is no narrower place to point at.
    #[verifier::when_used_as_spec(spec_call_site)]
    pub fn call_site() -> (span: Span)
        ensures
            span == Span::spec_call_site(),
    {
        Span { lo: 0, hi: 0 }
    }
}

/// One token: its text as written, and where it stands.
#[derive(Clone, Debug, PartialEq, Eq)]
pub struct Token {
    pub text: String,
    pub span: Span,
}

/// What a [`Token`] is to a contract.
pub struct TokenView {
    pub text: Seq<char>,
    pub span: Span,
}

impl View for Token {
    type V = TokenView;

    open spec fn view(&self) -> TokenView {
        TokenView { text: self.text@, span: self.span }
    }
}

/// The token `text` at `span`.
pub open spec fn mark(text: &str, span: Span) -> TokenView {
    TokenView { text: text@, span }
}

/// The tokens with the given texts, in order, all at `span`.
pub open spec fn marks(texts: Seq<&str>, span: Span) -> Seq<TokenView> {
    Seq::new(texts.len(), |i: int| mark(texts[i], span))
}

impl Token {
    /// The token with the given text at the given place.
    pub fn new(text: &str, span: Span) -> (token: Token)
        ensures
            token@ == mark(text, span),
    {
        Token { text: String::from_str(text), span }
    }

    /// A copy of this token.
    pub fn duplicate(&self) -> (copy: Token)
        ensures
            copy@ == self@,
    {
        Token { text: self.text.clone(), span: self.span }
    }
}

/// The views of a sequence of tokens, in order.
pub open spec fn tokens_view(tokens: Seq<Token>) -> Seq<TokenView> {
    Seq::new(tokens.len(), |i: int| tokens[i]@)
}

/// The tokens with the given texts, in order, all at `span`.
pub fn tokens_at(texts: &[&str], span: Span) -> (tokens: Vec<Token>)
    ensures
        tokens_view(tokens@) == marks(texts@, span),
{
    let mut tokens: Vec<Token> = Vec::new();
    let mut i: usize = 0;
    while i < texts.len()
        invariant
            i <= texts.len(),
            tokens_view(tokens@) =~= marks(texts@, span).take(i as int),
        decreases texts.len() - i,
    {
        let token = Token::new(texts[i], span);
        let ghost before = tokens@;
        tokens.push(token);
        assert(tokens_view(tokens@) =~= tokens_view(before).push(token@));
        i = i + 1;
    }
    tokens
}

/// What encloses a group.
#[derive(Clone, Copy, Debug, PartialEq, Eq, Hash, Structural)]
pub enum Delimiter {
    /// `( ... )`
    Parenthesis,
    /// `{ ... }`
    Brace,
    /// `[ ... ]`
    Bracket,
    /// Nothing that is written: the members are held together as one operand
    /// all the same.
    Invisible,
}

/// A token, or a group of token trees between delimiters.
#[derive(Debug, PartialEq, Eq)]
pub enum TokenTree {
    /// A single token.
    Token(Token),
    /// A delimited sequence.
    Group(TokenGroup),
}

/// A sequence of token trees between delimiters.
#[derive(Debug, PartialEq, Eq)]
pub struct TokenGroup {
    pub delimiter: Delimiter,
    pub span: Span,
    pub stream: Vec<TokenTree>,
}

/// What a [`TokenTree`] is to a contract.
pub enum TokenTreeView {
    Token(TokenView),
    Group(TokenGroupView),
}

/// What a [`TokenGroup`] is to a contract.
pub struct TokenGroupView {
    pub delimiter: Delimiter,
    pub span: Span,
    pub stream: Seq<TokenTreeView>,
}

/// What a sequence of token trees is to a contract: the views of its members,
/// in order.
pub open spec fn token_stream_view(stream: Seq<TokenTree>) -> Seq<TokenTreeView>
    decreases stream,
{
    Seq::new(
        stream.len(),
        |i: int|
            if 0 <= i < stream.len() {
                token_tree_view(stream[i])
            } else {
                arbitrary()
            },
    )
}

/// The view of a [`TokenTree`].
pub open spec fn token_tree_view(tree: TokenTree) -> TokenTreeView
    decreases tree,
{
    match tree {
        TokenTree::Token(token) => TokenTreeView::Token(token@),
        TokenTree::Group(group) => TokenTreeView::Group(
            TokenGroupView {
                delimiter: group.delimiter,
                span: group.span,
                stream: token_stream_view(group.stream@),
            },
        ),
    }
}

impl View for TokenTree {
    type V = TokenTreeView;

    open spec fn view(&self) -> TokenTreeView {
        token_tree_view(*self)
    }
}

impl View for TokenGroup {
    type V = TokenGroupView;

    open spec fn view(&self) -> TokenGroupView {
        TokenGroupView {
            delimiter: self.delimiter,
            span: self.span,
            stream: token_stream_view(self.stream@),
        }
    }
}

impl TokenTree {
    /// Where this token tree stands: the place of the token, or that of the
    /// group as a whole.
    pub open spec fn spec_span(&self) -> Span {
        match self {
            TokenTree::Token(token) => token.span,
            TokenTree::Group(group) => group.span,
        }
    }

    /// Where this token tree stands: the place of the token, or that of the
    /// group as a whole.
    #[verifier::when_used_as_spec(spec_span)]
    pub fn span(&self) -> (span: Span)
        ensures
            span == self.spec_span(),
    {
        match self {
            TokenTree::Token(token) => token.span,
            TokenTree::Group(group) => group.span,
        }
    }

    /// A copy of this token tree.
    pub fn duplicate(&self) -> (copy: TokenTree)
        ensures
            copy@ == self@,
        decreases self,
    {
        match self {
            TokenTree::Token(token) => TokenTree::Token(token.duplicate()),
            TokenTree::Group(group) => TokenTree::Group(
                TokenGroup {
                    delimiter: group.delimiter,
                    span: group.span,
                    stream: duplicate_stream(&group.stream),
                },
            ),
        }
    }
}

/// A copy of a stream of token trees.
pub fn duplicate_stream(stream: &Vec<TokenTree>) -> (copy: Vec<TokenTree>)
    ensures
        token_stream_view(copy@) == token_stream_view(stream@),
    decreases stream,
{
    let mut copy: Vec<TokenTree> = Vec::new();
    let mut i: usize = 0;
    while i < stream.len()
        invariant
            i <= stream.len(),
            copy.len() == i,
            forall|j: int| 0 <= j < i ==> copy@[j]@ == stream@[j]@,
        decreases stream.len() - i,
    {
        let tree = stream[i].duplicate();
        copy.push(tree);
        i = i + 1;
    }
    copy
}

/// An annotation `#[ ... ]` in front of an expression. What stands between the
/// brackets is kept as the token trees it was written with.
#[derive(Debug, PartialEq, Eq)]
pub struct Attribute {
    pub pound_token: Span,
    pub bracket_token: Span,
    pub meta: Vec<TokenTree>,
}

/// What an [`Attribute`] is to a contract.
pub struct AttributeView {
    pub pound_token: Span,
    pub bracket_token: Span,
    pub meta: Seq<TokenTreeView>,
}

impl View for Attribute {
    type V = AttributeView;

    open spec fn view(&self) -> AttributeView {
        AttributeView {
            pound_token: self.pound_token,
            bracket_token: self.bracket_token,
            meta: token_stream_view(self.meta@),
        }
    }
}

/// The views of a sequence of attributes, in order.
pub open spec fn attributes_view(attrs: Seq<Attribute>) -> Seq<AttributeView> {
    Seq::new(attrs.len(), |i: int| attrs[i]@)
}

} // verus!
