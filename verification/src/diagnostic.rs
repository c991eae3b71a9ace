//! What the rewrite reports in place of a result.

use vstd::prelude::*;
use vstd::string::StringExecFns;
use crate::token::Span;

verus! {

/// A message for the author of the source, and the place it is about.
#[derive(Clone, Debug, PartialEq, Eq)]
pub struct Diagnostic {
    pub message: String,
    pub span: Span,
}

/// What a [`Diagnostic`] is to a contract.
pub struct DiagnosticView {
    pub message: Seq<char>,
    pub span: Span,
}

impl View for Diagnostic {
    type V = DiagnosticView;

    open spec fn view(&self) -> DiagnosticView {
        DiagnosticView { message: self.message@, span: self.span }
    }
}

impl Diagnostic {
    /// The diagnostic with the given message about the given place.
    pub fn new(span: Span, message: &str) -> (diagnostic: Diagnostic)
        ensures
            diagnostic@ == (DiagnosticView { message: message@, span }),
    {
        Diagnostic { message: String::from_str(message), span }
    }
}

} // verus!
