//! A check of the rewrite against a few sources whose rewritten form is known.

use vstd::prelude::*;
use vstd::string::StringExecFns;
use crate::diagnostic::{Diagnostic, DiagnosticView};
use crate::expand::{enclosed, word};
use crate::laws::lemma_rewritten_try_tokens;
use crate::written::{expansion_head, expansion_tail};
use crate::print::{
    expr_tokens, item_text, item_tokens, lemma_operand_tokens, lemma_stream_tokens_push,
    lemma_tree_tokens, source_text, to_source,
};
use crate::token::{
    Attribute, AttributeView, Delimiter, Span, Token, TokenView, attributes_view, mark, marks,
    tokens_at, tokens_view,
};
use crate::transform::try_macro;
use crate::tree::{
    Expr, ExprTry, ExprTryView, ExprView, Group, Item, ItemView, Tree, TreeView, stream_view,
};
use crate::visit::{rewritten_expr, rewritten_item, rewritten_stream};

verus! {

/// A source with a name, and the tokens that its rewrite is to give, written
/// out one after the other with the brackets among them.
#[derive(Debug, PartialEq, Eq)]
pub struct Case {
    pub name: String,
    pub input: Item,
    pub expected: Vec<Token>,
}

/// What a [`Case`] is to a contract.
pub struct CaseView {
    pub name: Seq<char>,
    pub input: ItemView,
    pub expected: Seq<TokenView>,
}

impl View for Case {
    type V = CaseView;

    open spec fn view(&self) -> CaseView {
        CaseView { name: self.name@, input: self.input@, expected: tokens_view(self.expected@) }
    }
}

/// The views of a sequence of cases, in order.
pub open spec fn cases_view(cases: Seq<Case>) -> Seq<CaseView> {
    Seq::new(cases.len(), |i: int| cases[i]@)
}

/// The text that the rewrite gives for the input of a case.
pub open spec fn outcome(case: CaseView) -> Seq<char> {
    item_text(rewritten_item(case.input))
}

/// The text that a case expects.
pub open spec fn expectation(case: CaseView) -> Seq<char> {
    source_text(case.expected)
}

/// A case passes if the text of its rewritten input is the text that it
/// expects. Where the tokens stand is not looked at.
pub open spec fn passes(case: CaseView) -> bool {
    outcome(case) == expectation(case)
}

/// What is said of a case that fails: its name, the text that the rewrite
/// gave and the text that was expected.
pub open spec fn report(case: CaseView) -> Seq<char> {
    "`"@ + case.name + "` failed\n left: "@ + outcome(case) + "\nright: "@ + expectation(case)
}

/// The reports of the cases that fail, in the order of the cases.
pub open spec fn reports(cases: Seq<CaseView>) -> Seq<Seq<char>>
    decreases cases.len(),
{
    if cases.len() == 0 {
        Seq::empty()
    } else if passes(cases.last()) {
        reports(cases.drop_last())
    } else {
        reports(cases.drop_last()).push(report(cases.last()))
    }
}

/// The parts one after the other, with `separator` between each two.
pub open spec fn joined(parts: Seq<Seq<char>>, separator: Seq<char>) -> Seq<char>
    decreases parts.len(),
{
    if parts.len() == 0 {
        Seq::empty()
    } else if parts.len() == 1 {
        parts[0]
    } else {
        joined(parts.drop_last(), separator) + separator + parts.last()
    }
}

/// The views of a sequence of strings, in order.
pub open spec fn strings_view(strings: Seq<String>) -> Seq<Seq<char>> {
    Seq::new(strings.len(), |i: int| strings[i]@)
}

/// Puts `parts` one after the other, with `separator` between each two.
pub fn join(parts: &Vec<String>, separator: &str) -> (text: String)
    ensures
        text@ == joined(strings_view(parts@), separator@),
{
    let ghost views = strings_view(parts@);
    let mut text = String::new();
    let mut i: usize = 0;
    while i < parts.len()
        invariant
            i <= parts.len(),
            views == strings_view(parts@),
            text@ == joined(views.take(i as int), separator@),
        decreases parts.len() - i,
    {
        proof {
            let next = views.take(i + 1);
            assert(next.drop_last() =~= views.take(i as int));
        }
        if i > 0 {
            text.append(separator);
        }
        text.append(parts[i].as_str());
        i = i + 1;
    }
    assert(views.take(i as int) =~= views);
    text
}

/// Runs a case: rewrites its input as an item that came without arguments,
/// and holds the text of the result against the text that is expected. Gives
/// the report if the two differ.
pub fn run(case: Case) -> (failure: Option<String>)
    ensures
        passes(case@) ==> failure is None,
        !passes(case@) ==> failure is Some && failure->Some_0@ == report(case@),
{
    let Case { name, input, expected } = case;
    let left = match try_macro(Vec::new(), Ok(input)) {
        Ok(item) => item.to_source(),
        Err(diagnostic) => diagnostic.message,
    };
    let right = to_source(&expected);
    if left == right {
        None
    } else {
        let mut text = String::from_str("`");
        text.append(name.as_str());
        text.append("` failed\n left: ");
        text.append(left.as_str());
        text.append("\nright: ");
        text.append(right.as_str());
        Some(text)
    }
}

/// Runs every case. Where one fails, the result is a single diagnostic at the
/// call site that holds the report of each failing case, a blank line between
/// each two; a first failure does not keep the later cases from being run.
pub fn check(cases: Vec<Case>) -> (result: Result<(), Diagnostic>)
    ensures
        reports(cases_view(cases@)).len() == 0 ==> result is Ok,
        reports(cases_view(cases@)).len() > 0 ==> result is Err && result->Err_0@
            == (DiagnosticView {
            message: joined(reports(cases_view(cases@)), "\n\n"@),
            span: Span::call_site(),
        }),
{
    let ghost all = cases@;
    let ghost views = cases_view(all);
    let mut cases = cases;
    let mut fails: Vec<String> = Vec::new();
    let ghost mut done: int = 0;
    while cases.len() > 0
        invariant
            0 <= done <= all.len(),
            views == cases_view(all),
            cases@ == all.subrange(done, all.len() as int),
            strings_view(fails@) == reports(views.take(done)),
        decreases cases.len(),
    {
        let case = cases.remove(0);
        proof {
            let next = views.take(done + 1);
            assert(next.drop_last() =~= views.take(done));
        }
        match run(case) {
            Some(text) => {
                fails.push(text);
            },
            None => {},
        }
        proof {
            done = done + 1;
        }
    }
    assert(views.take(done) =~= views);
    if fails.len() == 0 {
        Ok(())
    } else {
        Err(Diagnostic { message: join(&fails, "\n\n"), span: Span::call_site() })
    }
}

/// `fn foo() { body }`, every token at the call site.
pub open spec fn function_foo(body: ExprView) -> ItemView {
    ItemView {
        stream: seq![
            word("fn", Span::call_site()),
            word("foo", Span::call_site()),
            enclosed(Delimiter::Parenthesis, Seq::empty(), Span::call_site()),
            enclosed(Delimiter::Brace, seq![TreeView::Expr(body)], Span::call_site()),
        ],
    }
}

/// The expression `x`.
pub open spec fn variable_x() -> ExprView {
    ExprView::Verbatim(seq![word("x", Span::call_site())])
}

/// `operand?`, without attributes.
pub open spec fn followed_by_question_mark(operand: ExprView) -> ExprView {
    ExprView::Try(
        ExprTryView {
            attrs: Seq::empty(),
            expr: Box::new(operand),
            question_token: Span::call_site(),
        },
    )
}

/// `operand + 2`
pub open spec fn plus_two(operand: ExprView) -> ExprView {
    ExprView::Verbatim(
        seq![
            TreeView::Expr(operand),
            word("+", Span::call_site()),
            word("2", Span::call_site()),
        ],
    )
}

/// The tokens of `fn foo() { x? }` after the rewrite.
pub const IT_WORKS: [&'static str; 57] = [
    "fn", "foo", "(", ")", "{",
        "match", "::", "try_macro", "::", "Try", "::", "branch", "(", "x", ")", "{",
            "::", "core", "::", "ops", "::", "ControlFlow", "::", "Continue", "(", "value", ")",
                "=>", "value", ",",
            "::", "core", "::", "ops", "::", "ControlFlow", "::", "Break", "(", "err", ")", "=>",
                "{",
                "return", "::", "try_macro", "::", "FromResidual", "::", "from_residual", "(",
                    "err", ")", ";",
            "}",
        "}",
    "}",
];

/// The tokens of `fn foo() { x?? }` after the rewrite.
pub const NESTING: [&'static str; 107] = [
    "fn", "foo", "(", ")", "{",
        "match", "::", "try_macro", "::", "Try", "::", "branch", "(",
            "match", "::", "try_macro", "::", "Try", "::", "branch", "(", "x", ")", "{",
                "::", "core", "::", "ops", "::", "ControlFlow", "::", "Continue", "(", "value", ")",
                    "=>", "value", ",",
                "::", "core", "::", "ops", "::", "ControlFlow", "::", "Break", "(", "err", ")",
                    "=>", "{",
                    "return", "::", "try_macro", "::", "FromResidual", "::", "from_residual", "(",
                        "err", ")", ";",
                "}",
            "}",
        ")", "{",
            "::", "core", "::", "ops", "::", "ControlFlow", "::", "Continue", "(", "value", ")",
                "=>", "value", ",",
            "::", "core", "::", "ops", "::", "ControlFlow", "::", "Break", "(", "err", ")", "=>",
                "{",
                "return", "::", "try_macro", "::", "FromResidual", "::", "from_residual", "(",
                    "err", ")", ";",
            "}",
        "}",
    "}",
];

/// The tokens of `fn foo() { x? + 2 }` after the rewrite.
pub const INNER: [&'static str; 61] = [
    "fn", "foo", "(", ")", "{",
        "(", "match", "::", "try_macro", "::", "Try", "::", "branch", "(", "x", ")", "{",
            "::", "core", "::", "ops", "::", "ControlFlow", "::", "Continue", "(", "value", ")",
                "=>", "value", ",",
            "::", "core", "::", "ops", "::", "ControlFlow", "::", "Break", "(", "err", ")", "=>",
                "{",
                "return", "::", "try_macro", "::", "FromResidual", "::", "from_residual", "(",
                    "err", ")", ";",
            "}",
        "}", ")", "+", "2",
    "}",
];

/// The cases that [`__test`] runs: a single `?`, a `?` on a `?`, and a `?`
/// as the operand of `+`.
pub open spec fn corpus_view() -> Seq<CaseView> {
    seq![
        CaseView {
            name: "it_works"@,
            input: function_foo(followed_by_question_mark(variable_x())),
            expected: marks(IT_WORKS@, Span::call_site()),
        },
        CaseView {
            name: "nesting"@,
            input: function_foo(
                followed_by_question_mark(followed_by_question_mark(variable_x())),
            ),
            expected: marks(NESTING@, Span::call_site()),
        },
        CaseView {
            name: "inner"@,
            input: function_foo(plus_two(followed_by_question_mark(variable_x()))),
            expected: marks(INNER@, Span::call_site()),
        },
    ]
}

fn build_function_foo(body: Expr) -> (item: Item)
    ensures
        item@ == function_foo(body@),
{
    let span = Span::call_site();
    let parameters = Tree::Group(
        Group { delimiter: Delimiter::Parenthesis, span, stream: Vec::new() },
    );
    let mut inner: Vec<Tree> = Vec::new();
    inner.push(Tree::Expr(body));
    assert(stream_view(inner@) =~= seq![TreeView::Expr(body@)]);
    let block = Tree::Group(Group { delimiter: Delimiter::Brace, span, stream: inner });
    let mut stream: Vec<Tree> = Vec::new();
    stream.push(Tree::Token(Token::new("fn", span)));
    stream.push(Tree::Token(Token::new("foo", span)));
    stream.push(parameters);
    stream.push(block);
    assert(stream_view(Seq::<Tree>::empty()) =~= Seq::<TreeView>::empty());
    assert(stream_view(stream@) =~= function_foo(body@).stream);
    Item { stream }
}

fn build_variable_x() -> (expr: Expr)
    ensures
        expr@ == variable_x(),
{
    let mut stream: Vec<Tree> = Vec::new();
    stream.push(Tree::Token(Token::new("x", Span::call_site())));
    assert(stream_view(stream@) =~= seq![word("x", Span::call_site())]);
    Expr::Verbatim(stream)
}

fn build_followed_by_question_mark(operand: Expr) -> (expr: Expr)
    ensures
        expr@ == followed_by_question_mark(operand@),
{
    let attrs: Vec<Attribute> = Vec::new();
    assert(attributes_view(attrs@) =~= Seq::<AttributeView>::empty());
    Expr::Try(ExprTry { attrs, expr: Box::new(operand), question_token: Span::call_site() })
}

fn build_plus_two(operand: Expr) -> (expr: Expr)
    ensures
        expr@ == plus_two(operand@),
{
    let mut stream: Vec<Tree> = Vec::new();
    stream.push(Tree::Expr(operand));
    stream.push(Tree::Token(Token::new("+", Span::call_site())));
    stream.push(Tree::Token(Token::new("2", Span::call_site())));
    assert(stream_view(stream@) =~= plus_two(operand@)->Verbatim_0);
    Expr::Verbatim(stream)
}

/// The cases that [`__test`] runs.
pub fn corpus() -> (cases: Vec<Case>)
    ensures
        cases_view(cases@) == corpus_view(),
{
    let span = Span::call_site();
    let mut cases: Vec<Case> = Vec::new();
    cases.push(
        Case {
            name: String::from_str("it_works"),
            input: build_function_foo(build_followed_by_question_mark(build_variable_x())),
            expected: tokens_at(&IT_WORKS, span),
        },
    );
    cases.push(
        Case {
            name: String::from_str("nesting"),
            input: build_function_foo(
                build_followed_by_question_mark(
                    build_followed_by_question_mark(build_variable_x()),
                ),
            ),
            expected: tokens_at(&NESTING, span),
        },
    );
    cases.push(
        Case {
            name: String::from_str("inner"),
            input: build_function_foo(
                build_plus_two(build_followed_by_question_mark(build_variable_x())),
            ),
            expected: tokens_at(&INNER, span),
        },
    );
    cases
}

proof fn lemma_function_foo(body: ExprView)
    ensures
        rewritten_item(function_foo(body)) == function_foo(rewritten_expr(body)),
        item_tokens(function_foo(body)) == seq![
            mark("fn", Span::call_site()),
            mark("foo", Span::call_site()),
            mark("(", Span::call_site()),
            mark(")", Span::call_site()),
            mark("{", Span::call_site()),
        ] + expr_tokens(body) + seq![mark("}", Span::call_site())],
{
    let span = Span::call_site();
    let stream = function_foo(body).stream;
    assert(rewritten_stream(Seq::<TreeView>::empty()) =~= Seq::<TreeView>::empty());
    assert(rewritten_stream(seq![TreeView::Expr(body)]) =~= seq![
        TreeView::Expr(rewritten_expr(body)),
    ]);
    assert(rewritten_stream(stream) =~= function_foo(rewritten_expr(body)).stream);

    let empty = Seq::<TreeView>::empty();
    let parameters = enclosed(Delimiter::Parenthesis, empty, span);
    let slot = TreeView::Expr(body);
    let block = enclosed(Delimiter::Brace, seq![slot], span);
    lemma_tree_tokens(word("fn", span), false);
    lemma_tree_tokens(word("foo", span), false);
    lemma_tree_tokens(parameters, false);
    lemma_tree_tokens(block, false);
    lemma_stream_tokens_push(empty, slot, false);
    lemma_stream_tokens_push(empty, word("fn", span), false);
    lemma_stream_tokens_push(empty.push(word("fn", span)), word("foo", span), false);
    lemma_stream_tokens_push(
        empty.push(word("fn", span)).push(word("foo", span)),
        parameters,
        false,
    );
    lemma_stream_tokens_push(
        empty.push(word("fn", span)).push(word("foo", span)).push(parameters),
        block,
        false,
    );
    assert(empty.push(word("fn", span)).push(word("foo", span)).push(parameters).push(block)
        =~= stream);
}

proof fn lemma_variable_x()
    ensures
        rewritten_expr(variable_x()) == variable_x(),
        expr_tokens(variable_x()) == seq![mark("x", Span::call_site())],
{
    let span = Span::call_site();
    let empty = Seq::<TreeView>::empty();
    assert(rewritten_stream(seq![word("x", span)]) =~= seq![word("x", span)]);
    lemma_tree_tokens(word("x", span), true);
    lemma_stream_tokens_push(empty, word("x", span), true);
}

proof fn lemma_followed_by_question_mark(operand: ExprView)
    ensures
        rewritten_expr(followed_by_question_mark(operand)) is Match,
        expr_tokens(rewritten_expr(followed_by_question_mark(operand))) == expansion_head(
            Span::call_site(),
        ) + expr_tokens(rewritten_expr(operand)) + expansion_tail(Span::call_site()),
{
    let expr_try = followed_by_question_mark(operand)->Try_0;
    lemma_rewritten_try_tokens(expr_try);
}

proof fn lemma_plus_two(operand: ExprView)
    requires
        rewritten_expr(operand) is Match,
    ensures
        expr_tokens(rewritten_expr(plus_two(operand))) == seq![mark("(", Span::call_site())]
            + expr_tokens(rewritten_expr(operand)) + seq![
            mark(")", Span::call_site()),
            mark("+", Span::call_site()),
            mark("2", Span::call_site()),
        ],
{
    let span = Span::call_site();
    let empty = Seq::<TreeView>::empty();
    let slot = TreeView::Expr(rewritten_expr(operand));
    let after = seq![slot, word("+", span), word("2", span)];
    assert(rewritten_stream(plus_two(operand)->Verbatim_0) =~= after);
    lemma_operand_tokens(rewritten_expr(operand));
    lemma_tree_tokens(word("+", span), true);
    lemma_tree_tokens(word("2", span), true);
    lemma_stream_tokens_push(empty, slot, true);
    lemma_stream_tokens_push(empty.push(slot), word("+", span), true);
    lemma_stream_tokens_push(empty.push(slot).push(word("+", span)), word("2", span), true);
    assert(empty.push(slot).push(word("+", span)).push(word("2", span)) =~= after);
}

proof fn lemma_it_works_passes()
    ensures
        passes(corpus_view()[0]),
{
    let body = followed_by_question_mark(variable_x());
    lemma_variable_x();
    lemma_followed_by_question_mark(variable_x());
    lemma_function_foo(body);
    lemma_function_foo(rewritten_expr(body));
    assert(item_tokens(rewritten_item(function_foo(body))) =~= marks(
        IT_WORKS@,
        Span::call_site(),
    ));
}

proof fn lemma_nesting_passes()
    ensures
        passes(corpus_view()[1]),
{
    let inner = followed_by_question_mark(variable_x());
    let body = followed_by_question_mark(inner);
    lemma_variable_x();
    lemma_followed_by_question_mark(variable_x());
    lemma_followed_by_question_mark(inner);
    lemma_function_foo(body);
    lemma_function_foo(rewritten_expr(body));
    assert(item_tokens(rewritten_item(function_foo(body))) =~= marks(
        NESTING@,
        Span::call_site(),
    ));
}

proof fn lemma_inner_passes()
    ensures
        passes(corpus_view()[2]),
{
    let operand = followed_by_question_mark(variable_x());
    let body = plus_two(operand);
    lemma_variable_x();
    lemma_followed_by_question_mark(variable_x());
    lemma_plus_two(operand);
    lemma_function_foo(body);
    lemma_function_foo(rewritten_expr(body));
    assert(item_tokens(rewritten_item(function_foo(body))) =~= marks(
        INNER@,
        Span::call_site(),
    ));
}

/// Every case of the corpus passes: for `fn foo() { x? }`,
/// `fn foo() { x?? }` and `fn foo() { x? + 2 }` the rewrite writes the
/// tokens of [`IT_WORKS`], [`NESTING`] and [`INNER`].
pub proof fn lemma_corpus_passes()
    ensures
        forall|i: int| 0 <= i < corpus_view().len() ==> passes(#[trigger] corpus_view()[i]),
        reports(corpus_view()).len() == 0,
{
    lemma_it_works_passes();
    lemma_nesting_passes();
    lemma_inner_passes();
    let all = corpus_view();
    let two = all.drop_last();
    let one = two.drop_last();
    assert(reports(one.drop_last()).len() == 0);
    assert(reports(one).len() == 0);
    assert(reports(two).len() == 0);
}

/// Checks the rewrite against the cases of [`corpus`]. The result is what
/// [`check`] makes of them: `Ok` where no case is reported, else one diagnostic
/// with every report. Every case passes, so the result is `Ok`.
pub fn __test() -> (result: Result<(), Diagnostic>)
    ensures
        reports(corpus_view()).len() == 0 ==> result is Ok,
        reports(corpus_view()).len() > 0 ==> result is Err && result->Err_0@
            == (DiagnosticView {
            message: joined(reports(corpus_view()), "\n\n"@),
            span: Span::call_site(),
        }),
        forall|i: int| 0 <= i < corpus_view().len() ==> passes(#[trigger] corpus_view()[i]),
        result is Ok,
{
    proof {
        lemma_corpus_passes();
    }
    check(corpus())
}

} // verus!
