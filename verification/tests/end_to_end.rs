// The library is given what `syn` parses from source text, and what it hands
// back is read by `syn` again.

use proc_macro2::{Ident, Spacing, Span, TokenStream, TokenTree};
use quote::ToTokens;
use syn::visit_mut::{self, VisitMut};
use try_macro::diagnostic::Diagnostic;
use try_macro::token::{Attribute, Delimiter, Token, TokenGroup};
use try_macro::tree::{Expr, ExprTry, Group, Item, Tree};

struct Places {
    spans: Vec<Span>,
}

impl Places {
    /// The table with the call site alone, which is the library's
    /// `Span::call_site()`.
    fn new() -> Places {
        Places { spans: vec![Span::call_site()] }
    }

    /// Keeps `span`, and gives the span that stands for it in the library.
    fn note(&mut self, span: Span) -> try_macro::token::Span {
        let number = u32::try_from(self.spans.len()).expect("fewer than 2^32 tokens");
        self.spans.push(span);
        try_macro::token::Span { lo: number, hi: number }
    }

    /// The span of the compiler that a span of the library stands for.
    fn find(&self, span: try_macro::token::Span) -> Span {
        self.spans.get(span.lo as usize).copied().unwrap_or_else(Span::call_site)
    }
}

const SLOT: &str = "__try_macro_slot_";

/// Tokens as the token trees of the library.
fn token_stream(stream: TokenStream, places: &mut Places) -> Vec<try_macro::token::TokenTree> {
    let mut trees = Vec::new();
    for lexed in lex(stream) {
        trees.push(match lexed {
            Lexed::Group(group) => try_macro::token::TokenTree::Group(TokenGroup {
                delimiter: delimiter(group.delimiter()),
                span: places.note(group.span()),
                stream: token_stream(group.stream(), places),
            }),
            Lexed::Name(name) => try_macro::token::TokenTree::Token(Token {
                text: name.to_string(),
                span: places.note(name.span()),
            }),
            Lexed::Other(text, span) => {
                try_macro::token::TokenTree::Token(Token { text, span: places.note(span) })
            }
        });
    }
    trees
}

/// A parsed item as an item of the library.
fn item(mut item: syn::Item, places: &mut Places) -> Item {
    let mut holes = Holes { places, taken: Vec::new() };
    visit_mut::visit_item_mut(&mut holes, &mut item);
    Item { stream: holes.fill(item.into_token_stream()) }
}

/// The statements of a parsed block, without its braces.
fn statements(mut block: syn::Block, places: &mut Places) -> Vec<Tree> {
    let mut holes = Holes { places, taken: Vec::new() };
    let mut tokens = TokenStream::new();
    for stmt in &mut block.stmts {
        holes.visit_stmt_mut(stmt);
        stmt.to_tokens(&mut tokens);
    }
    holes.fill(tokens)
}

/// What the parser said, as a diagnostic of the library.
fn lift_diagnostic(error: &syn::Error, places: &mut Places) -> Diagnostic {
    Diagnostic { message: error.to_string(), span: places.note(error.span()) }
}

fn delimiter(delimiter: proc_macro2::Delimiter) -> Delimiter {
    match delimiter {
        proc_macro2::Delimiter::Parenthesis => Delimiter::Parenthesis,
        proc_macro2::Delimiter::Brace => Delimiter::Brace,
        proc_macro2::Delimiter::Bracket => Delimiter::Bracket,
        proc_macro2::Delimiter::None => Delimiter::Invisible,
    }
}

fn attribute(attr: &syn::Attribute, places: &mut Places) -> Attribute {
    Attribute {
        pound_token: places.note(attr.pound_token.span),
        bracket_token: places.note(attr.bracket_token.span.join()),
        meta: token_stream(attr.meta.to_token_stream(), places),
    }
}

fn expr(expr: syn::Expr, places: &mut Places) -> Expr {
    match expr {
        syn::Expr::Try(expr_try) => Expr::Try(ExprTry {
            attrs: expr_try.attrs.iter().map(|attr| attribute(attr, places)).collect(),
            expr: Box::new(self::expr(*expr_try.expr, places)),
            question_token: places.note(expr_try.question_token.span),
        }),
        mut other => {
            let mut holes = Holes { places, taken: Vec::new() };
            visit_mut::visit_expr_mut(&mut holes, &mut other);
            Expr::Verbatim(holes.fill(other.into_token_stream()))
        }
    }
}

/// Takes the expressions out of what it visits, and puts them back into the
/// tokens.
struct Holes<'a> {
    places: &'a mut Places,
    taken: Vec<Option<Expr>>,
}

impl Holes<'_> {
    /// Keeps `expr` and gives the name that stands for it.
    fn take(&mut self, expr: Expr) -> syn::Expr {
        let name = Ident::new(&format!("{SLOT}{}", self.taken.len()), Span::call_site());
        self.taken.push(Some(expr));
        syn::Expr::Path(syn::ExprPath { attrs: Vec::new(), qself: None, path: name.into() })
    }

    /// The expression that `name` stands for, if it stands for one.
    fn taken(&mut self, name: &Ident) -> Option<Expr> {
        let number: usize = name.to_string().strip_prefix(SLOT)?.parse().ok()?;
        self.taken.get_mut(number)?.take()
    }

    /// Tokens as a stream of the tree, each expression that was taken out
    /// back in its place.
    fn fill(&mut self, tokens: TokenStream) -> Vec<Tree> {
        let mut stream = Vec::new();
        for tree in lex(tokens) {
            stream.push(match tree {
                Lexed::Group(group) => Tree::Group(Group {
                    delimiter: delimiter(group.delimiter()),
                    span: self.places.note(group.span()),
                    stream: self.fill(group.stream()),
                }),
                Lexed::Name(name) => match self.taken(&name) {
                    Some(expr) => Tree::Expr(expr),
                    None => Tree::Token(Token {
                        text: name.to_string(),
                        span: self.places.note(name.span()),
                    }),
                },
                Lexed::Other(text, span) => {
                    Tree::Token(Token { text, span: self.places.note(span) })
                }
            });
        }
        stream
    }
}

impl VisitMut for Holes<'_> {
    fn visit_expr_mut(&mut self, node: &mut syn::Expr) {
        let taken = std::mem::replace(node, syn::Expr::PLACEHOLDER);
        let lifted = expr(taken, self.places);
        *node = self.take(lifted);
    }

    // Where the grammar asks for a block, the block stays where it is and
    // the expressions in it are taken out: `syn` writes braces of its own
    // around anything else that it finds there.

    fn visit_local_init_mut(&mut self, node: &mut syn::LocalInit) {
        let Some((_, diverge)) = &mut node.diverge else {
            return visit_mut::visit_local_init_mut(self, node);
        };
        visit_mut::visit_expr_mut(self, diverge);
        // What is followed by `else` is an operand, not a whole initialiser.
        let taken = std::mem::replace(&mut *node.expr, syn::Expr::PLACEHOLDER);
        let lifted = expr(taken, self.places);
        *node.expr = self.take(Expr::Verbatim(vec![Tree::Expr(lifted)]));
    }

    fn visit_expr_if_mut(&mut self, node: &mut syn::ExprIf) {
        self.visit_expr_mut(&mut node.cond);
        self.visit_block_mut(&mut node.then_branch);
        if let Some((_, else_branch)) = &mut node.else_branch {
            visit_mut::visit_expr_mut(self, else_branch);
        }
    }

    fn visit_expr_closure_mut(&mut self, node: &mut syn::ExprClosure) {
        if matches!(node.output, syn::ReturnType::Default) {
            return visit_mut::visit_expr_closure_mut(self, node);
        }
        for input in &mut node.inputs {
            self.visit_pat_mut(input);
        }
        self.visit_return_type_mut(&mut node.output);
        visit_mut::visit_expr_mut(self, &mut node.body);
    }
}

/// One token of a stream. Punctuation that is written without a gap is one
/// token, and so is a lifetime.
enum Lexed {
    Group(proc_macro2::Group),
    Name(Ident),
    Other(String, Span),
}

fn lex(tokens: TokenStream) -> Vec<Lexed> {
    let mut lexed = Vec::new();
    let mut joint: Option<(String, Span)> = None;
    for tree in tokens {
        match tree {
            TokenTree::Punct(punct) => {
                let (mut text, span) = joint.take().unwrap_or((String::new(), punct.span()));
                text.push(punct.as_char());
                match punct.spacing() {
                    Spacing::Joint => joint = Some((text, span)),
                    Spacing::Alone => lexed.push(Lexed::Other(text, span)),
                }
            }
            TokenTree::Ident(name) => match joint.take() {
                Some((mut text, span)) => {
                    text.push_str(&name.to_string());
                    lexed.push(Lexed::Other(text, span));
                }
                None => lexed.push(Lexed::Name(name)),
            },
            TokenTree::Group(group) => {
                lexed.extend(joint.take().map(|(text, span)| Lexed::Other(text, span)));
                lexed.push(Lexed::Group(group));
            }
            TokenTree::Literal(literal) => {
                lexed.extend(joint.take().map(|(text, span)| Lexed::Other(text, span)));
                lexed.push(Lexed::Other(literal.to_string(), literal.span()));
            }
        }
    }
    lexed.extend(joint.map(|(text, span)| Lexed::Other(text, span)));
    lexed
}

/// The token trees of the library as tokens, each at the span that it stands
/// for.
fn lower_token_stream(stream: &[try_macro::token::TokenTree], places: &Places) -> TokenStream {
    let mut tokens = TokenStream::new();
    for tree in stream {
        match tree {
            try_macro::token::TokenTree::Token(token) => {
                let span = places.find(token.span);
                let lexed: TokenStream = token.text.parse().expect("the text of a token");
                tokens.extend(lexed.into_iter().map(|mut tree| {
                    tree.set_span(span);
                    tree
                }));
            }
            try_macro::token::TokenTree::Group(group) => {
                let delimiter = match group.delimiter {
                    Delimiter::Parenthesis => proc_macro2::Delimiter::Parenthesis,
                    Delimiter::Brace => proc_macro2::Delimiter::Brace,
                    Delimiter::Bracket => proc_macro2::Delimiter::Bracket,
                    Delimiter::Invisible => proc_macro2::Delimiter::None,
                };
                let mut lowered = proc_macro2::Group::new(delimiter, lower_token_stream(&group.stream, places));
                lowered.set_span(places.find(group.span));
                tokens.extend([TokenTree::Group(lowered)]);
            }
        }
    }
    tokens
}

/// A diagnostic as the tokens of a compile error at its place.
fn lower_diagnostic(diagnostic: &Diagnostic, places: &Places) -> TokenStream {
    syn::Error::new(places.find(diagnostic.span), &diagnostic.message).into_compile_error()
}

fn expand(attr: &str, item: &str) -> TokenStream {
    let mut places = Places::new();
    let attr = token_stream(attr.parse().expect("tokens"), &mut places);
    let item = match syn::parse_str::<syn::Item>(item) {
        Ok(parsed) => Ok(self::item(parsed, &mut places)),
        Err(error) => Err(lift_diagnostic(&error, &mut places)),
    };
    match try_macro::try_macro(attr, item) {
        Ok(item) => lower_token_stream(&item.to_token_stream(), &places),
        Err(diagnostic) => lower_diagnostic(&diagnostic, &places),
    }
}

fn expand_block(stream: &str) -> TokenStream {
    let mut places = Places::new();
    let stmts = match syn::parse_str::<syn::Block>(&format!("{{ {stream} }}")) {
        Ok(block) => Ok(statements(block, &mut places)),
        Err(error) => Err(lift_diagnostic(&error, &mut places)),
    };
    match try_macro::try_macro_block(stmts) {
        Ok(block) => lower_token_stream(&block.to_token_stream(), &places),
        Err(diagnostic) => lower_diagnostic(&diagnostic, &places),
    }
}

fn tokens(source: &str) -> String {
    source.parse::<TokenStream>().expect("tokens").to_string()
}

const MATCH_X: &str = "match ::try_macro::Try::branch(x) {
    ::core::ops::ControlFlow::Continue(value) => value,
    ::core::ops::ControlFlow::Break(err) => {
        return ::try_macro::FromResidual::from_residual(err);
    }
}";

/// Counts the `?` that `syn` finds.
struct Count(usize);

impl VisitMut for Count {
    fn visit_expr_try_mut(&mut self, node: &mut syn::ExprTry) {
        self.0 += 1;
        visit_mut::visit_expr_try_mut(self, node);
    }
}

fn question_marks(item: &syn::Item) -> usize {
    let mut count = Count(0);
    count.visit_item_mut(&mut item.clone());
    count.0
}

#[test]
fn source_with_one_question_mark() {
    let output = expand("", "fn foo() { x? }");
    assert_eq!(output.to_string(), tokens(&format!("fn foo() {{ {MATCH_X} }}")));
}

#[test]
fn source_with_nested_question_marks() {
    let output = expand("", "fn foo() { x?? }");
    let expected = format!(
        "fn foo() {{
            match ::try_macro::Try::branch({MATCH_X}) {{
                ::core::ops::ControlFlow::Continue(value) => value,
                ::core::ops::ControlFlow::Break(err) => {{
                    return ::try_macro::FromResidual::from_residual(err);
                }}
            }}
        }}"
    );
    assert_eq!(output.to_string(), tokens(&expected));
}

#[test]
fn source_with_question_mark_as_operand() {
    let output = expand("", "fn foo() { x?+2 }");
    assert_eq!(output.to_string(), tokens(&format!("fn foo() {{ ({MATCH_X})+2 }}")));
}

#[test]
fn source_without_question_mark_comes_back_as_it_was() {
    let source = "fn foo(a: [u8; 2 + 1]) -> u8 { let b = |c: u8| c * (a[0] - 1); b(a[1]) }";
    assert_eq!(expand("", source).to_string(), tokens(source));
    let source = "
        /// Says what it does.
        #[inline]
        pub(crate) fn bar<'a, T: Into<Vec<Vec<u8>>>>(r#type: &'a mut T, n: f32) -> &'a str {
            let _ = (n >= 1.5e3 && n != -0.5, 'x', b\"s\", 1u8 << 2 >> 1, ..=3);
            if let Some(y) = r#type.get() { 'done: loop { y -= 1; break 'done; } } else if n > 0. { }
            let z = || -> u8 { 1 };
            \"text\"
        }";
    let parsed = syn::parse_str::<syn::Item>(source).expect("an item");
    assert_eq!(expand("", source).to_string(), parsed.to_token_stream().to_string());
}

#[test]
fn output_is_read_again_without_a_question_mark() {
    let source = "
        impl Reader {
            fn read(&mut self) -> Result<Vec<u8>, Error> {
                let n = self.len()?.checked_add(1).ok_or(Error::Overflow)?;
                let Some(first) = self.next()? else { return Err(Error::Empty) };
                let rest = (0..n).map(|i| self.at(i)?.get()).collect::<Result<Vec<_>, _>>()?;
                fn local(x: Option<u8>) -> Option<u8> { Some(x? + 1) }
                if self.done()? { return Ok(rest); }
                match self.peek()? {
                    Some(b) if b.valid()? => Ok(vec![first, b, local(Some(1)).ok_or(Error::Empty)?]),
                    _ => Ok(-self.size()? as u8 + rest[self.index()?]),
                }
            }
        }";
    let parsed = syn::parse_str::<syn::Item>(source).expect("an item");
    // one more stands in the call of `vec!`, where only tokens are
    assert_eq!(question_marks(&parsed), 11);
    let output = expand("", source);
    let read_again = syn::parse2::<syn::Item>(output.clone()).expect("the output is an item");
    assert_eq!(question_marks(&read_again), 0);
    assert_eq!(output.to_string().matches("Try :: branch").count(), 11);
    assert_eq!(output.to_string().matches('?').count(), 1);
    // what is read is written as it was read
    assert_eq!(read_again.to_token_stream().to_string(), output.to_string());
    // a second pass finds nothing to do
    assert_eq!(expand("", &output.to_string()).to_string(), output.to_string());
}

#[test]
fn blocks_stay_blocks() {
    let source = "
        fn foo() -> Option<u8> {
            let a = |x: Option<u8>| -> Option<u8> { Some(x? + 1) };
            let b = if a(p)? > 1 { 1 } else if q? { 2 } else { r? };
            let Some(d) = e else { return f?; };
            while let Some(g) = h? { b += g; }
            for i in j?.iter() { k(i)?; }
            async move { l.await? };
            unsafe { m()? }
        }";
    let parsed = syn::parse_str::<syn::Item>(source).expect("an item");
    assert_eq!(question_marks(&parsed), 10);
    let output = expand("", source);
    let read_again = syn::parse2::<syn::Item>(output.clone()).expect("the output is an item");
    assert_eq!(question_marks(&read_again), 0);
    assert_eq!(output.to_string().matches("Try :: branch").count(), 10);
    assert_eq!(read_again.to_token_stream().to_string(), output.to_string());
    // no brace is written that the source did not hold
    let braces = |text: &str| text.matches('{').count();
    assert_eq!(braces(&output.to_string()), braces(source) + 10 * 2);
}

#[test]
fn question_mark_in_a_macro_call_is_not_seen() {
    let output = expand("", "fn foo() { vec![x?] }");
    assert_eq!(output.to_string(), tokens("fn foo() { vec![x?] }"));
}

#[test]
fn initialiser_before_else_is_put_in_parentheses() {
    let output = expand("", "fn foo() { let Some(y) = x? else { return }; }");
    assert_eq!(
        output.to_string(),
        tokens(&format!("fn foo() {{ let Some(y) = ({MATCH_X}) else {{ return }}; }}"))
    );
    syn::parse2::<syn::Item>(output).expect("the output is an item");
}

#[test]
fn attributes_of_a_question_mark_are_written_before_the_match() {
    let output = expand("", "fn foo() { #[allow(unused)] #[inline] x? }");
    assert_eq!(
        output.to_string(),
        tokens(&format!("fn foo() {{ #[allow(unused)] #[inline] {MATCH_X} }}"))
    );
}

#[test]
fn argument_gives_a_compile_error() {
    let output = expand("strict", "fn foo() { x? }");
    assert_eq!(
        output.to_string(),
        tokens("::core::compile_error! { \"invalid attribute input\" }")
    );
}

#[test]
fn source_that_is_no_item_gives_the_error_of_the_parser() {
    let error = syn::parse_str::<syn::Item>("fn foo() { x? ").err().expect("no item");
    let output = expand("", "fn foo() { x? ");
    assert_eq!(output.to_string(), error.into_compile_error().to_string());
}

#[test]
fn statements_come_back_in_a_block() {
    let output = expand_block("let y = x?; y + 1");
    assert_eq!(output.to_string(), tokens(&format!("{{ let y = {MATCH_X}; y + 1 }}")));
    let error = syn::parse_str::<syn::Block>("{ let y = ; }").err().expect("no block");
    assert_eq!(
        expand_block("let y = ;").to_string(),
        error.into_compile_error().to_string()
    );
}
