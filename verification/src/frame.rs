//! The decoded protocol values that a cursor walks over.

use bytes::Bytes;
use vstd::prelude::*;
use vstd::utf8::encode_utf8;

verus! {

#[verifier::external_type_specification]
#[verifier::external_body]
pub struct ExBytes(bytes::Bytes);

/// The bytes that a `Bytes` value holds, in order.
pub uninterp spec fn bytes_contents(b: Bytes) -> Seq<u8>;

/// Borrows the contents of a `Bytes` through its `AsRef<[u8]>` impl.
///
/// Trusted: the slice handed out holds exactly the contents of `b`.
#[verifier::external_body]
pub(crate) fn bytes_as_slice(b: &Bytes) -> (s: &[u8])
    ensures
        s@ == bytes_contents(*b),
{
    b.as_ref()
}

/// Calls `Bytes::from` on a `String`, which takes over the string's buffer.
///
/// Trusted: the result holds the UTF-8 encoding of the text, byte for byte.
#[verifier::external_body]
pub(crate) fn bytes_from_string(s: String) -> (b: Bytes)
    ensures
        bytes_contents(b) == encode_utf8(s@),
{
    Bytes::from(s)
}

/// One decoded unit of the wire protocol.
#[derive(Debug, PartialEq, Eq)]
pub enum Frame {
    /// A short inline string.
    Simple(String),
    /// An error reply.
    Error(String),
    /// A numeric literal.
    Integer(u64),
    /// An opaque binary payload of known length.
    Bulk(Bytes),
    /// The absent value.
    Null,
    /// An ordered sequence of frames.
    Array(Vec<Frame>),
}

impl Frame {
    /// The name of the frame's variant, as diagnostics spell it.
    pub open spec fn kind(self) -> Seq<char> {
        match self {
            Frame::Simple(_) => "Simple"@,
            Frame::Error(_) => "Error"@,
            Frame::Integer(_) => "Integer"@,
            Frame::Bulk(_) => "Bulk"@,
            Frame::Null => "Null"@,
            Frame::Array(_) => "Array"@,
        }
    }

    /// The name of the frame's variant.
    pub fn kind_name(&self) -> (name: &'static str)
        ensures
            name@ == self.kind(),
    {
        match self {
            Frame::Simple(_) => "Simple",
            Frame::Error(_) => "Error",
            Frame::Integer(_) => "Integer",
            Frame::Bulk(_) => "Bulk",
            Frame::Null => "Null",
            Frame::Array(_) => "Array",
        }
    }
}

} // verus!
