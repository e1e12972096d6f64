//! The ways in which a request fails to parse.

use crate::text::str_eq;
use vstd::prelude::*;

verus! {

/// Why a request could not be parsed.
#[derive(Debug)]
pub enum ParseError {
    /// The input holds no line at all.
    EmptyRequest,
    /// The request line holds no token.
    MissingMethod,
    /// The request line holds a method token and nothing after it.
    MissingPath,
    /// The method token, carried here as it was read, is not the name of a method.
    UnknownMethod(String),
}

/// The mathematical value of a [`ParseError`].
pub enum ParseErrorView {
    EmptyRequest,
    MissingMethod,
    MissingPath,
    UnknownMethod(Seq<char>),
}

impl ParseErrorView {
    /// The text that describes the error.
    pub open spec fn message(self) -> Seq<char> {
        match self {
            ParseErrorView::EmptyRequest => "Empty request"@,
            ParseErrorView::MissingMethod => "Missing method"@,
            ParseErrorView::MissingPath => "Missing path"@,
            ParseErrorView::UnknownMethod(token) => "Unknown method: "@ + token,
        }
    }
}

impl View for ParseError {
    type V = ParseErrorView;

    open spec fn view(&self) -> ParseErrorView {
        match self {
            ParseError::EmptyRequest => ParseErrorView::EmptyRequest,
            ParseError::MissingMethod => ParseErrorView::MissingMethod,
            ParseError::MissingPath => ParseErrorView::MissingPath,
            ParseError::UnknownMethod(token) => ParseErrorView::UnknownMethod(token@),
        }
    }
}

impl PartialEq for ParseError {
    fn eq(&self, other: &Self) -> (equal: bool) {
        match (self, other) {
            (ParseError::EmptyRequest, ParseError::EmptyRequest) => true,
            (ParseError::MissingMethod, ParseError::MissingMethod) => true,
            (ParseError::MissingPath, ParseError::MissingPath) => true,
            (ParseError::UnknownMethod(token), ParseError::UnknownMethod(other_token)) => {
                str_eq(token.as_str(), other_token.as_str())
            },
            _ => false,
        }
    }
}

impl Eq for ParseError {

}

impl vstd::std_specs::cmp::PartialEqSpecImpl for ParseError {
    open spec fn obeys_eq_spec() -> bool {
        true
    }

    /// Two errors are equal when they have the same value.
    open spec fn eq_spec(&self, other: &Self) -> bool {
        self@ == other@
    }
}

impl Clone for ParseError {
    fn clone(&self) -> (copy: Self)
        ensures
            copy@ == self@,
    {
        match self {
            ParseError::EmptyRequest => ParseError::EmptyRequest,
            ParseError::MissingMethod => ParseError::MissingMethod,
            ParseError::MissingPath => ParseError::MissingPath,
            ParseError::UnknownMethod(token) => ParseError::UnknownMethod(token.clone()),
        }
    }
}

impl ParseError {
    /// The text that describes the error; an unknown method token is quoted
    /// in it unchanged.
    pub fn message(&self) -> (text: String)
        ensures
            text@ == self@.message(),
    {
        match self {
            ParseError::EmptyRequest => String::from_str("Empty request"),
            ParseError::MissingMethod => String::from_str("Missing method"),
            ParseError::MissingPath => String::from_str("Missing path"),
            ParseError::UnknownMethod(token) => {
                String::from_str("Unknown method: ").concat(token.as_str())
            },
        }
    }
}

} // verus!
