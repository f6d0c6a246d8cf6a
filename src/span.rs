//! Byte ranges into the source text, attached to syntax nodes.
use vstd::prelude::*;

verus! {

/// A half-open byte range `begin..end` of the source text.
#[derive(Debug, PartialEq, Eq, Clone, Copy, Structural)]
pub struct Span {
    pub begin: usize,
    pub end: usize,
}

/// A value together with the span of source text it was read from.
#[derive(Debug, PartialEq, Eq, Clone)]
pub struct Spanned<T> {
    pub span: Span,
    pub data: T,
}

/// The span that runs from the start of `first` to the end of `last`.
pub open spec fn span_between(first: Span, last: Span) -> Span {
    Span { begin: first.begin, end: last.end }
}

/// Attaches the span `begin..end` to `data`.
pub fn spanned<T>(begin: usize, end: usize, data: T) -> (r: Spanned<T>)
    ensures
        r.span == (Span { begin, end }),
        r.data == data,
{
    Spanned { span: Span { begin, end }, data }
}

} // verus!
