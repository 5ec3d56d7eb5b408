//! The errors of field extraction.

use vstd::prelude::*;
use vstd::std_specs::convert::FromSpecImpl;

verus! {

/// Why a field could not be extracted from a frame.
///
/// Only `EndOfStream` is meant to be handled by a caller: it says that the
/// frame had fewer fields than were asked for. Every other error is a
/// violation of the protocol and ends the connection.
#[derive(Debug, PartialEq, Eq)]
pub enum ParseError {
    /// The frame was fully consumed before the extraction.
    EndOfStream,
    /// Any other mismatch, with a diagnostic text.
    Other(String),
}

/// A `ParseError` with its diagnostic as a sequence of characters.
pub enum ParseErrorView {
    EndOfStream,
    Other(Seq<char>),
}

impl View for ParseError {
    type V = ParseErrorView;

    open spec fn view(&self) -> ParseErrorView {
        match self {
            ParseError::EndOfStream => ParseErrorView::EndOfStream,
            ParseError::Other(msg) => ParseErrorView::Other(msg@),
        }
    }
}

impl ParseErrorView {
    /// The text that describes the error to a reader.
    pub open spec fn message(self) -> Seq<char> {
        match self {
            ParseErrorView::EndOfStream => "protocol error; unexpected end of stream"@,
            ParseErrorView::Other(msg) => msg,
        }
    }
}

impl ParseError {
    /// The text that describes the error to a reader.
    pub fn message(&self) -> (text: String)
        ensures
            text@ == self@.message(),
    {
        match self {
            ParseError::EndOfStream => "protocol error; unexpected end of stream".to_owned(),
            ParseError::Other(msg) => msg.clone(),
        }
    }
}

impl From<String> for ParseError {
    fn from(src: String) -> (err: ParseError) {
        ParseError::Other(src)
    }
}

impl FromSpecImpl<String> for ParseError {
    open spec fn obeys_from_spec() -> bool {
        true
    }

    open spec fn from_spec(src: String) -> ParseError {
        ParseError::Other(src)
    }
}

impl<'a> From<&'a str> for ParseError {
    fn from(src: &'a str) -> (err: ParseError)
        ensures
            err@ == ParseErrorView::Other(src@),
    {
        ParseError::Other(src.to_owned())
    }
}

/// A string is known by its text alone, so this conversion is stated by the
/// `ensures` of `from`, over the view of the error, and not by `from_spec`.
impl<'a> FromSpecImpl<&'a str> for ParseError {
    open spec fn obeys_from_spec() -> bool {
        false
    }

    open spec fn from_spec(src: &'a str) -> ParseError {
        ParseError::Other(choose|text: String| text@ == src@)
    }
}

} // verus!
