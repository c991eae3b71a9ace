use std::{convert::Infallible, ops::ControlFlow};

use try_macro::token::{Delimiter, Span, Token};
use try_macro::tree::{Expr, ExprTry, Group, Item, Tree};
use try_macro::{try_macro, FromResidual, Try};

struct Inner;
#[derive(Debug, PartialEq, Eq)]
struct Outer;
impl From<Inner> for Outer {
    fn from(_: Inner) -> Self {
        Outer
    }
}

#[derive(Debug, PartialEq, Eq)]
enum Either<L, R> {
    Left(L),
    Right(R),
}
impl<L, R> Try for Either<L, R> {
    type Output = R;
    type Residual = Either<L, Infallible>;

    fn from_output(output: Self::Output) -> Self {
        Self::Right(output)
    }

    fn branch(self) -> ControlFlow<Self::Residual, Self::Output> {
        match self {
            Either::Left(left) => ControlFlow::Break(Either::Left(left)),
            Either::Right(right) => ControlFlow::Continue(right),
        }
    }
}
impl<L, R> FromResidual for Either<L, R> {
    fn from_residual(residual: <Self as Try>::Residual) -> Self {
        match residual {
            Either::Left(left) => Self::Left(left),
        }
    }
}

fn some() -> Option<u8> { Some(3) }
fn none() -> Option<u8> { None }
fn err() -> Result<u8, Inner> { Err(Inner) }
fn ok() -> Result<u8, Inner> { Ok(3) }
fn left() -> Either<&'static str, u8> { Either::Left("err") }
fn right() -> Either<&'static str, u8> { Either::Right(3) }

// Each function below is `let x = source()?; wrap(x as i32)` after the rewrite.

fn apply_option() -> Option<i32> {
    let x = match ::try_macro::Try::branch(none()) {
        ::core::ops::ControlFlow::Continue(value) => value,
        ::core::ops::ControlFlow::Break(err) => {
            return ::try_macro::FromResidual::from_residual(err);
        }
    };
    Some(x as i32)
}

fn apply_option_some() -> Option<i32> {
    let x = match ::try_macro::Try::branch(some()) {
        ::core::ops::ControlFlow::Continue(value) => value,
        ::core::ops::ControlFlow::Break(err) => {
            return ::try_macro::FromResidual::from_residual(err);
        }
    };
    Some(x as i32)
}

fn apply_result() -> Result<i32, Outer> {
    let x = match ::try_macro::Try::branch(err()) {
        ::core::ops::ControlFlow::Continue(value) => value,
        ::core::ops::ControlFlow::Break(err) => {
            return ::try_macro::FromResidual::from_residual(err);
        }
    };
    Ok(x as i32)
}

fn apply_result_ok() -> Result<i32, Outer> {
    let x = match ::try_macro::Try::branch(ok()) {
        ::core::ops::ControlFlow::Continue(value) => value,
        ::core::ops::ControlFlow::Break(err) => {
            return ::try_macro::FromResidual::from_residual(err);
        }
    };
    Ok(x as i32)
}

fn apply_either() -> Either<&'static str, i32> {
    let x = match ::try_macro::Try::branch(left()) {
        ::core::ops::ControlFlow::Continue(value) => value,
        ::core::ops::ControlFlow::Break(err) => {
            return ::try_macro::FromResidual::from_residual(err);
        }
    };
    Either::Right(x as i32)
}

fn apply_either_right() -> Either<&'static str, i32> {
    let x = match ::try_macro::Try::branch(right()) {
        ::core::ops::ControlFlow::Continue(value) => value,
        ::core::ops::ControlFlow::Break(err) => {
            return ::try_macro::FromResidual::from_residual(err);
        }
    };
    Either::Right(x as i32)
}

fn word(text: &str) -> Tree {
    Tree::Token(Token::new(text, Span::call_site()))
}

fn parentheses(stream: Vec<Tree>) -> Tree {
    Tree::Group(Group { delimiter: Delimiter::Parenthesis, span: Span::call_site(), stream })
}

/// The tree of `fn name() -> ... { let x = source()?; wrap(x as i32) }`.
fn applied(name: &str, returns: &[&str], source: &str, wrap: &[&str]) -> Item {
    let call = Expr::Verbatim(vec![word(source), parentheses(vec![])]);
    let marked = Expr::Try(ExprTry {
        attrs: vec![],
        expr: Box::new(call),
        question_token: Span::call_site(),
    });
    let mut result: Vec<Tree> = wrap.iter().map(|text| word(text)).collect();
    result.push(parentheses(vec![Tree::Expr(Expr::Verbatim(vec![
        Tree::Expr(Expr::Verbatim(vec![word("x")])),
        word("as"),
        word("i32"),
    ]))]));
    let body = vec![
        word("let"),
        word("x"),
        word("="),
        Tree::Expr(marked),
        word(";"),
        Tree::Expr(Expr::Verbatim(result)),
    ];
    let mut stream = vec![word("fn"), word(name), parentheses(vec![]), word("->")];
    stream.extend(returns.iter().map(|text| word(text)));
    stream.push(Tree::Group(Group {
        delimiter: Delimiter::Brace,
        span: Span::call_site(),
        stream: body,
    }));
    Item { stream }
}

/// The text of the functions above, as the rewrite is to give it.
fn rewritten_text(name: &str, returns: &str, source: &str, wrap: &str) -> String {
    format!(
        "fn {name} ( ) -> {returns} {{ \
         let x = match :: try_macro :: Try :: branch ( {source} ( ) ) {{ \
         :: core :: ops :: ControlFlow :: Continue ( value ) => value , \
         :: core :: ops :: ControlFlow :: Break ( err ) => {{ \
         return :: try_macro :: FromResidual :: from_residual ( err ) ; }} }} ; \
         {wrap} ( x as i32 ) }}"
    )
}

fn rewritten(item: Item) -> String {
    try_macro(vec![], Ok(item)).expect("no argument and a parsed item").to_source()
}

#[test]
fn it_works() {
    assert_eq!(
        rewritten(applied("apply_option", &["Option", "<", "i32", ">"], "none", &["Some"])),
        rewritten_text("apply_option", "Option < i32 >", "none", "Some")
    );
    assert_eq!(
        rewritten(applied(
            "apply_result",
            &["Result", "<", "i32", ",", "Outer", ">"],
            "err",
            &["Ok"]
        )),
        rewritten_text("apply_result", "Result < i32 , Outer >", "err", "Ok")
    );
    assert_eq!(
        rewritten(applied(
            "apply_either_right",
            &["Either", "<", "&", "'static", "str", ",", "i32", ">"],
            "right",
            &["Either", "::", "Right"]
        )),
        rewritten_text(
            "apply_either_right",
            "Either < & 'static str , i32 >",
            "right",
            "Either :: Right"
        )
    );

    assert_eq!(apply_option(), None);
    assert_eq!(apply_option_some(), Some(3));
    assert_eq!(apply_result(), Err(Outer));
    assert_eq!(apply_result_ok(), Ok(3));
    assert_eq!(apply_either(), Either::Left("err"));
    assert_eq!(apply_either_right(), Either::Right(3));
}
