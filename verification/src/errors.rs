//! What lexing and parsing report.

use crate::markers::PositionMarker;
use crate::matching::Fault;
use vstd::prelude::*;
use vstd::string::*;

verus! {

/// Why a text could not be turned into segments.
#[derive(Clone, Copy, Debug, PartialEq, Eq, Structural)]
pub enum ValueError {
    /// The lexed elements, joined, are not the templated text.
    TemplateMismatch,
    /// A slice of template output was met; placing segments in such a slice
    /// is not implemented.
    TemplatedSliceNotImplemented,
    /// A position computed from the slices does not lie in the text.
    PositionOutOfRange,
    /// The slices ended before an element was placed.
    UnplacedElement,
}

/// A span of text that no matcher could lex.
#[derive(Debug)]
pub struct SQLLexError {
    pub message: String,
    pub position_marker: PositionMarker,
}

/// What went wrong when a list of tokens was parsed.
#[derive(Clone, Copy, Debug, PartialEq, Eq, Structural)]
pub enum ParseErrorKind {
    /// The dialect holds no rule for a whole file.
    NoRootGrammar,
    /// The rule for a whole file does not match at the first code token.
    NoMatch,
    /// The rule for a whole file matched, and code is left behind what it
    /// matched.
    Unparsed,
    /// The match could not be made at all.
    Faulty(Fault),
}

/// Why a list of tokens could not be parsed: what went wrong, at which
/// token, and where that token stands.
#[derive(Debug)]
pub struct SQLParseError {
    pub kind: ParseErrorKind,
    pub token: usize,
    pub position: Option<PositionMarker>,
}

/// The model of a parse error.
pub struct ParseErrorView {
    pub kind: ParseErrorKind,
    pub token: int,
    pub position: Option<PositionMarker>,
}

impl DeepView for SQLParseError {
    type V = ParseErrorView;

    open spec fn deep_view(&self) -> ParseErrorView {
        ParseErrorView { kind: self.kind, token: self.token as int, position: self.position }
    }
}

impl SQLParseError {
    /// What went wrong, in words.
    pub fn description(&self) -> (r: String)
        ensures
            r@ == match self.kind {
                ParseErrorKind::NoRootGrammar => "The dialect has no rule for a file."@,
                ParseErrorKind::NoMatch => "Found unparsable section."@,
                ParseErrorKind::Unparsed => "Found unparsable section after the parsed one."@,
                ParseErrorKind::Faulty(Fault::TooDeep) => "The grammar refers to itself too deeply."@,
                ParseErrorKind::Faulty(Fault::UnknownRule) => "The grammar refers to an unknown rule."@,
                ParseErrorKind::Faulty(
                    Fault::UnknownBracket,
                ) => "The grammar refers to an unknown bracket pair."@,
                ParseErrorKind::Faulty(Fault::Unexpanded) => "The dialect was not expanded."@,
            },
    {
        let text = match self.kind {
            ParseErrorKind::NoRootGrammar => "The dialect has no rule for a file.",
            ParseErrorKind::NoMatch => "Found unparsable section.",
            ParseErrorKind::Unparsed => "Found unparsable section after the parsed one.",
            ParseErrorKind::Faulty(Fault::TooDeep) => "The grammar refers to itself too deeply.",
            ParseErrorKind::Faulty(Fault::UnknownRule) => "The grammar refers to an unknown rule.",
            ParseErrorKind::Faulty(
                Fault::UnknownBracket,
            ) => "The grammar refers to an unknown bracket pair.",
            ParseErrorKind::Faulty(Fault::Unexpanded) => "The dialect was not expanded.",
        };
        text.to_owned()
    }
}

} // verus!
