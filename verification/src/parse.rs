//! A cursor over the fields of one array frame.

use crate::decimal::{decimal_u64, parse_decimal};
use crate::error::{ParseError, ParseErrorView};
use crate::frame::{bytes_as_slice, bytes_contents, bytes_from_string, Frame};
use bytes::Bytes;
use vstd::prelude::*;
use vstd::string::*;
use vstd::utf8::{decode_utf8, encode_utf8, valid_utf8};

verus! {

/// The diagnostic for a frame that should have been an array.
pub open spec fn expected_array(got: Frame) -> Seq<char> {
    "protocol error; expected array, got "@ + got.kind()
}

/// The diagnostic for a field that should have been a simple or a bulk frame.
pub open spec fn expected_simple_or_bulk(got: Frame) -> Seq<char> {
    "protocol error; expected simple frame or bulk frame, got "@ + got.kind()
}

/// What is left of the fields once the first one, if any, has been taken.
pub open spec fn rest(fields: Seq<Frame>) -> Seq<Frame> {
    if fields.len() > 0 {
        fields.drop_first()
    } else {
        fields
    }
}

/// The outcome of taking the next field as it is.
pub open spec fn next_field(fields: Seq<Frame>) -> Result<Frame, ParseError> {
    if fields.len() > 0 {
        Ok(fields[0])
    } else {
        Err(ParseError::EndOfStream)
    }
}

/// The text that a frame stands for.
pub open spec fn text_of(frame: Frame) -> Result<Seq<char>, ParseErrorView> {
    match frame {
        Frame::Simple(s) => Ok(s@),
        Frame::Bulk(data) => if valid_utf8(bytes_contents(data)) {
            Ok(decode_utf8(bytes_contents(data)))
        } else {
            Err(ParseErrorView::Other("protocol error; invalid string"@))
        },
        _ => Err(ParseErrorView::Other(expected_simple_or_bulk(frame))),
    }
}

/// The raw bytes that a frame stands for.
pub open spec fn bytes_of(frame: Frame) -> Result<Seq<u8>, ParseErrorView> {
    match frame {
        Frame::Simple(s) => Ok(encode_utf8(s@)),
        Frame::Bulk(data) => Ok(bytes_contents(data)),
        _ => Err(ParseErrorView::Other(expected_simple_or_bulk(frame))),
    }
}

/// The number that a byte string writes in decimal.
pub open spec fn number_in(digits: Seq<u8>) -> Result<u64, ParseErrorView> {
    match decimal_u64(digits) {
        Some(n) => Ok(n),
        None => Err(ParseErrorView::Other("protocol error; invalid number"@)),
    }
}

/// The unsigned integer that a frame stands for.
pub open spec fn int_of(frame: Frame) -> Result<u64, ParseErrorView> {
    match frame {
        Frame::Simple(s) => number_in(encode_utf8(s@)),
        Frame::Integer(n) => Ok(n),
        Frame::Bulk(data) => number_in(bytes_contents(data)),
        _ => Err(ParseErrorView::Other(expected_simple_or_bulk(frame))),
    }
}

/// The outcome of taking the next field as text.
pub open spec fn next_text(fields: Seq<Frame>) -> Result<Seq<char>, ParseErrorView> {
    if fields.len() > 0 {
        text_of(fields[0])
    } else {
        Err(ParseErrorView::EndOfStream)
    }
}

/// The outcome of taking the next field as raw bytes.
pub open spec fn next_raw(fields: Seq<Frame>) -> Result<Seq<u8>, ParseErrorView> {
    if fields.len() > 0 {
        bytes_of(fields[0])
    } else {
        Err(ParseErrorView::EndOfStream)
    }
}

/// The outcome of taking the next field as an unsigned integer.
pub open spec fn next_number(fields: Seq<Frame>) -> Result<u64, ParseErrorView> {
    if fields.len() > 0 {
        int_of(fields[0])
    } else {
        Err(ParseErrorView::EndOfStream)
    }
}

/// The outcome of asking that no field is left.
pub open spec fn end_of(fields: Seq<Frame>) -> Result<(), ParseErrorView> {
    if fields.len() == 0 {
        Ok(())
    } else {
        Err(
            ParseErrorView::Other(
                "protocol error; expected end of frame, but there was more"@,
            ),
        )
    }
}

/// Builds the error for a field of the wrong kind.
fn unexpected(expected: &str, got: &Frame) -> (err: ParseError)
    ensures
        err@ == ParseErrorView::Other(
            "protocol error; expected "@ + expected@ + ", got "@ + got.kind(),
        ),
{
    let text = "protocol error; expected ".to_owned().concat(expected).concat(", got ").concat(
        got.kind_name(),
    );
    ParseError::Other(text)
}

/// Parses a byte string as a decimal number, or says why not.
fn number_from(digits: &[u8]) -> (r: Result<u64, ParseError>)
    ensures
        match number_in(digits@) {
            Ok(n) => r == Ok::<u64, ParseError>(n),
            Err(e) => r matches Err(err) && err@ == e,
        },
{
    match parse_decimal(digits) {
        Some(n) => Ok(n),
        None => Err(ParseError::Other("protocol error; invalid number".to_owned())),
    }
}

/// A single-pass cursor over the fields of an array frame.
///
/// The cursor owns the fields. Each extraction takes the first field that is
/// left, whatever comes of it; nothing is ever handed out twice and nothing is
/// skipped.
#[derive(Debug)]
pub struct Parse {
    /// The fields that are left, last one first.
    parts: Vec<Frame>,
}

impl View for Parse {
    type V = Seq<Frame>;

    /// The fields that are left, in the order in which they will come out.
    closed spec fn view(&self) -> Seq<Frame> {
        Seq::new(self.parts@.len(), |i: int| self.parts@[self.parts@.len() - 1 - i])
    }
}

impl Parse {
    /// Creates a cursor over the fields of `frame`, which has to be an array.
    pub fn new(frame: Frame) -> (r: Result<Parse, ParseError>)
        ensures
            match frame {
                Frame::Array(fields) => r matches Ok(cursor) && cursor@ == fields@,
                _ => r matches Err(err) && err@ == ParseErrorView::Other(expected_array(frame)),
            },
    {
        let mut array = match frame {
            Frame::Array(array) => array,
            other => {
                proof {
                    reveal_strlit("protocol error; expected ");
                    reveal_strlit("array");
                    reveal_strlit(", got ");
                    reveal_strlit("protocol error; expected array, got ");
                }
                let err = unexpected("array", &other);
                assert(err@ == ParseErrorView::Other(expected_array(other))) by {
                    assert("protocol error; expected "@ + "array"@ + ", got "@
                        =~= "protocol error; expected array, got "@);
                }
                return Err(err);
            },
        };
        let ghost fields = array@;
        let mut parts: Vec<Frame> = Vec::new();
        while array.len() > 0
            invariant
                array@.len() + parts@.len() == fields.len(),
                array@ =~= fields.subrange(0, array@.len() as int),
                forall|j: int|
                    0 <= j < parts@.len() ==> parts@[j] == fields[fields.len() - 1 - j],
            decreases array.len(),
        {
            let field = array.pop().unwrap();
            parts.push(field);
        }
        let cursor = Parse { parts };
        assert(cursor@ =~= fields);
        Ok(cursor)
    }

    /// Takes the next field as it is.
    pub fn next(&mut self) -> (r: Result<Frame, ParseError>)
        ensures
            r == next_field(old(self)@),
            final(self)@ == rest(old(self)@),
    {
        match self.parts.pop() {
            Some(field) => {
                assert(final(self)@ =~= old(self)@.drop_first());
                Ok(field)
            },
            None => Err(ParseError::EndOfStream),
        }
    }

    /// Takes the next field as a string.
    ///
    /// A simple frame gives its text; a bulk frame gives the text that its
    /// bytes encode in UTF-8, and is refused where they encode none.
    pub fn next_string(&mut self) -> (r: Result<String, ParseError>)
        ensures
            match next_text(old(self)@) {
                Ok(text) => r matches Ok(s) && s@ == text,
                Err(e) => r matches Err(err) && err@ == e,
            },
            old(self)@.len() > 0 ==> (old(self)@[0] matches Frame::Simple(s) ==> r == Ok::<
                String,
                ParseError,
            >(s)),
            final(self)@ == rest(old(self)@),
    {
        match self.next() {
            Err(err) => Err(err),
            Ok(Frame::Simple(s)) => Ok(s),
            Ok(Frame::Bulk(data)) => match core::str::from_utf8(bytes_as_slice(&data)) {
                Ok(s) => Ok(s.to_owned()),
                Err(_) => Err(ParseError::Other("protocol error; invalid string".to_owned())),
            },
            Ok(frame) => {
                proof {
                    lemma_simple_or_bulk_text();
                }
                Err(unexpected("simple frame or bulk frame", &frame))
            },
        }
    }

    /// Takes the next field as raw bytes.
    ///
    /// A bulk frame gives its payload as it is; a simple frame gives the
    /// UTF-8 encoding of its text.
    pub fn next_bytes(&mut self) -> (r: Result<Bytes, ParseError>)
        ensures
            match next_raw(old(self)@) {
                Ok(raw) => r matches Ok(b) && bytes_contents(b) == raw,
                Err(e) => r matches Err(err) && err@ == e,
            },
            old(self)@.len() > 0 ==> (old(self)@[0] matches Frame::Bulk(data) ==> r == Ok::<
                Bytes,
                ParseError,
            >(data)),
            final(self)@ == rest(old(self)@),
    {
        match self.next() {
            Err(err) => Err(err),
            Ok(Frame::Simple(s)) => Ok(bytes_from_string(s)),
            Ok(Frame::Bulk(data)) => Ok(data),
            Ok(frame) => {
                proof {
                    lemma_simple_or_bulk_text();
                }
                Err(unexpected("simple frame or bulk frame", &frame))
            },
        }
    }

    /// Takes the next field as an unsigned integer.
    ///
    /// An integer frame gives its number. A simple or a bulk frame has to
    /// write one in decimal: digits only, and no more than 64 bits hold.
    pub fn next_int(&mut self) -> (r: Result<u64, ParseError>)
        ensures
            match next_number(old(self)@) {
                Ok(n) => r == Ok::<u64, ParseError>(n),
                Err(e) => r matches Err(err) && err@ == e,
            },
            final(self)@ == rest(old(self)@),
    {
        match self.next() {
            Err(err) => Err(err),
            Ok(Frame::Simple(s)) => number_from(s.as_str().as_bytes()),
            Ok(Frame::Integer(n)) => Ok(n),
            Ok(Frame::Bulk(data)) => number_from(bytes_as_slice(&data)),
            Ok(frame) => {
                proof {
                    lemma_simple_or_bulk_text();
                }
                Err(unexpected("simple frame or bulk frame", &frame))
            },
        }
    }

    /// Checks that no field is left. The cursor stays as it is, whatever the
    /// answer.
    pub fn finish(&mut self) -> (r: Result<(), ParseError>)
        ensures
            match end_of(old(self)@) {
                Ok(_) => r is Ok,
                Err(e) => r matches Err(err) && err@ == e,
            },
            *final(self) == *old(self),
    {
        if self.parts.len() == 0 {
            Ok(())
        } else {
            Err(
                ParseError::Other(
                    "protocol error; expected end of frame, but there was more".to_owned(),
                ),
            )
        }
    }
}

/// The pieces of the diagnostic for a field of the wrong kind spell the
/// sentence that `expected_simple_or_bulk` starts with.
proof fn lemma_simple_or_bulk_text()
    ensures
        "protocol error; expected "@ + "simple frame or bulk frame"@ + ", got "@
            == "protocol error; expected simple frame or bulk frame, got "@,
{
    reveal_strlit("protocol error; expected ");
    reveal_strlit("simple frame or bulk frame");
    reveal_strlit(", got ");
    reveal_strlit("protocol error; expected simple frame or bulk frame, got ");
    assert("protocol error; expected "@ + "simple frame or bulk frame"@ + ", got "@
        =~= "protocol error; expected simple frame or bulk frame, got "@);
}

/// What is left of `fields` after `taken` extractions.
pub open spec fn after(fields: Seq<Frame>, taken: nat) -> Seq<Frame>
    decreases taken,
{
    if taken == 0 {
        fields
    } else {
        rest(after(fields, (taken - 1) as nat))
    }
}

/// The fields come out in the order of the array, each one once: the
/// extraction that follows `taken` earlier ones meets the field at index
/// `taken`, and every extraction past the last field meets the end of the
/// stream.
pub proof fn lemma_fields_come_in_order(fields: Seq<Frame>, taken: nat)
    ensures
        taken <= fields.len() ==> after(fields, taken) == fields.skip(taken as int),
        taken >= fields.len() ==> after(fields, taken) == Seq::<Frame>::empty(),
        taken < fields.len() ==> next_field(after(fields, taken)) == Ok::<Frame, ParseError>(
            fields[taken as int],
        ),
        taken >= fields.len() ==> next_field(after(fields, taken)) == Err::<Frame, ParseError>(
            ParseError::EndOfStream,
        ),
    decreases taken,
{
    if taken == 0 {
        assert(fields.skip(0) =~= fields);
        if fields.len() == 0 {
            assert(fields =~= Seq::<Frame>::empty());
        }
    } else {
        let before = (taken - 1) as nat;
        lemma_fields_come_in_order(fields, before);
        if taken <= fields.len() {
            assert(fields.skip(before as int).drop_first() =~= fields.skip(taken as int));
            if taken == fields.len() {
                assert(fields.skip(taken as int) =~= Seq::<Frame>::empty());
            }
        }
    }
}

/// A cursor over an array without fields is at its end from the start:
/// every extraction meets the end of the stream, and the final check passes.
pub proof fn lemma_empty_array(fields: Seq<Frame>)
    requires
        fields.len() == 0,
    ensures
        next_field(fields) == Err::<Frame, ParseError>(ParseError::EndOfStream),
        next_text(fields) == Err::<Seq<char>, ParseErrorView>(ParseErrorView::EndOfStream),
        next_raw(fields) == Err::<Seq<u8>, ParseErrorView>(ParseErrorView::EndOfStream),
        next_number(fields) == Err::<u64, ParseErrorView>(ParseErrorView::EndOfStream),
        end_of(fields) is Ok,
        rest(fields) == fields,
{
}

/// The final check passes once as many fields were taken as the array held,
/// and however many more extractions were tried after that; before that it
/// fails.
pub proof fn lemma_finish_after_all_fields(fields: Seq<Frame>, taken: nat)
    ensures
        taken >= fields.len() ==> end_of(after(fields, taken)) is Ok,
        taken < fields.len() ==> end_of(after(fields, taken)) == Err::<(), ParseErrorView>(
            ParseErrorView::Other(
                "protocol error; expected end of frame, but there was more"@,
            ),
        ),
{
    lemma_fields_come_in_order(fields, taken);
}

} // verus!
