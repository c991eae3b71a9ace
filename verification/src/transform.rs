//! The two ways in: rewrite an item, rewrite the statements of a block.
//!
//! Reading source text is not done here. Each function takes what the parser
//! made of the input: the tree, or the diagnostic with which the parser turned
//! the input down, and that diagnostic is handed on as it came.

use vstd::prelude::*;
use crate::diagnostic::{Diagnostic, DiagnosticView};
use crate::scan::{block_try_count, item_try_count, stream_try_count};
use crate::token::{Span, TokenTree};
use crate::tree::{Block, BlockView, Item, Tree, stream_view};
use crate::visit::{Visitor, rewritten_item, rewritten_stream};

verus! {

/// What [`try_macro`] says of an argument that it was given.
pub open spec fn invalid_attribute_input(span: Span) -> DiagnosticView {
    DiagnosticView { message: "invalid attribute input"@, span }
}

/// Replaces every `?` in an item.
///
/// `attr` holds the arguments that the request came with, as token trees.
/// None is accepted: if there is one, the result is a diagnostic about the
/// first of them, whatever `item` is. Else, if the parser turned the input
/// down, the result is the parser's diagnostic. Else it is the item with
/// every `?` in it replaced, the innermost first: no `?` is left in it, and
/// an item that held none comes back as it was.
pub fn try_macro(attr: Vec<TokenTree>, item: Result<Item, Diagnostic>) -> (output: Result<
    Item,
    Diagnostic,
>)
    ensures
        attr@.len() > 0 ==> output is Err && output->Err_0@ == invalid_attribute_input(
            attr@[0].span(),
        ),
        attr@.len() == 0 && item is Err ==> output == item,
        attr@.len() == 0 && item is Ok ==> output is Ok && output->Ok_0@ == rewritten_item(
            item->Ok_0@,
        ),
        output is Ok ==> item_try_count(output->Ok_0@) == 0,
        attr@.len() == 0 && item is Ok && item_try_count(item->Ok_0@) == 0 ==> output->Ok_0@
            == item->Ok_0@,
{
    if attr.len() > 0 {
        return Err(Diagnostic::new(attr[0].span(), "invalid attribute input"));
    }
    match item {
        Ok(mut item) => {
            Visitor.visit_item_mut(&mut item);
            Ok(item)
        },
        Err(diagnostic) => Err(diagnostic),
    }
}

/// What [`try_macro_block`] makes of statements: they stand between braces
/// placed at the call site, every `?` in them replaced.
pub open spec fn rewritten_statements(stmts: Seq<Tree>) -> BlockView {
    BlockView { brace_token: Span::call_site(), stmts: rewritten_stream(stream_view(stmts)) }
}

/// Replaces every `?` in a run of statements and hands them back as a block.
///
/// The statements come without braces. They are put between braces of their
/// own, which stand at the call site, and the block is then rewritten as an
/// item is. If the parser turned the input down, the result is the parser's
/// diagnostic.
pub fn try_macro_block(stream: Result<Vec<Tree>, Diagnostic>) -> (output: Result<
    Block,
    Diagnostic,
>)
    ensures
        stream is Err ==> output is Err && output->Err_0 == stream->Err_0,
        stream is Ok ==> output is Ok && output->Ok_0@ == rewritten_statements(stream->Ok_0@),
        output is Ok ==> block_try_count(output->Ok_0@) == 0,
        stream is Ok && stream_try_count(stream_view(stream->Ok_0@)) == 0 ==> output->Ok_0@.stmts
            == stream_view(stream->Ok_0@),
{
    match stream {
        Ok(stmts) => {
            let mut block = Block { brace_token: Span::call_site(), stmts };
            Visitor.visit_block_mut(&mut block);
            Ok(block)
        },
        Err(diagnostic) => Err(diagnostic),
    }
}

} // verus!
