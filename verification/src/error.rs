//! The scan's error taxonomy. Every failure names the kind of fault and the
//! precise source location of the offending syntax element; a human-readable
//! message is derived from the kind.

use vstd::prelude::*;
use crate::ast::Span;

verus! {

/// The kinds of fault that abort a scan. All are terminal: the first one
/// encountered, in declaration order, is surfaced to the caller.
#[derive(Clone, Copy, PartialEq, Eq, Structural, Debug)]
pub enum ErrorKind {
    /// The module is a forward declaration and carries no body to scan.
    MissingModuleBody,
    /// A handler parameter is a receiver (`self`-like) parameter.
    ReceiverParameterNotAllowed,
    /// A handler parameter's binding is not a plain identifier.
    UnsupportedParameterPattern,
    /// A handler declares zero parameters, so it has no context parameter.
    EmptyParameterList,
    /// The resolver could not extract an identifier from the context
    /// parameter's type annotation.
    ContextIdentifierResolutionFailure,
}

/// A scan failure: its kind and the location of the offending element.
#[derive(Clone, Copy, PartialEq, Eq, Structural, Debug)]
pub struct ParseError {
    pub kind: ErrorKind,
    pub span: Span,
}

/// The canonical diagnostic text for each error kind.
pub open spec fn spec_message(kind: ErrorKind) -> Seq<char> {
    match kind {
        ErrorKind::MissingModuleBody => "program content not provided"@,
        ErrorKind::ReceiverParameterNotAllowed => "expected a typed argument not self"@,
        ErrorKind::UnsupportedParameterPattern => "expected argument name"@,
        ErrorKind::EmptyParameterList => "expected a context argument"@,
        ErrorKind::ContextIdentifierResolutionFailure => "expected a context type with one type argument"@,
    }
}

impl ParseError {
    /// The human-readable message that accompanies this error.
    pub fn message(&self) -> (r: String)
        ensures
            r@ == spec_message(self.kind),
    {
        match self.kind {
            ErrorKind::MissingModuleBody => "program content not provided".to_owned(),
            ErrorKind::ReceiverParameterNotAllowed => "expected a typed argument not self".to_owned(),
            ErrorKind::UnsupportedParameterPattern => "expected argument name".to_owned(),
            ErrorKind::EmptyParameterList => "expected a context argument".to_owned(),
            ErrorKind::ContextIdentifierResolutionFailure => "expected a context type with one type argument".to_owned(),
        }
    }
}

} // verus!
