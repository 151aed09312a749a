//! Reply values of the store's wire protocol.

use vstd::prelude::*;
use vstd::utf8::{decode_utf8, valid_utf8};

verus! {

/// How the text of a verbatim reply is marked up.
#[derive(Debug, PartialEq)]
pub enum VerbatimFormat {
    Unknown(String),
    Markdown,
    Text,
}

/// A reply value as a mathematical object. A double is given by its IEEE
/// 754 bit pattern; the pairs of a map are the sequence of its keys and values as
/// they came; `Other` stands for any reply outside the listed shapes and
/// carries a description of it.
pub ghost enum Wire {
    Nil,
    Integer(i64),
    Boolean(bool),
    Okay,
    SimpleString(Seq<char>),
    BulkBytes(Seq<u8>),
    Double(u64),
    VerbatimText(Seq<char>),
    Array(Seq<Wire>),
    Members(Seq<Wire>),
    Pairs(Seq<(Wire, Wire)>),
    Other(Seq<char>),
}

/// A reply value of the store.
#[derive(Debug, PartialEq)]
pub enum WireValue {
    /// The absent value.
    Nil,
    /// An integer reply.
    Integer(i64),
    /// A boolean reply.
    Boolean(bool),
    /// The status reply `OK`.
    Okay,
    /// A status line.
    SimpleString(String),
    /// A binary-safe string.
    BulkBytes(Vec<u8>),
    /// A double, as its IEEE 754 bit pattern.
    Double(u64),
    /// A text with a format mark.
    VerbatimText { format: VerbatimFormat, text: String },
    /// An ordered list of replies.
    Array(Vec<WireValue>),
    /// The members of a set, in the order received.
    Members(Vec<WireValue>),
    /// The key and value pairs of a map, in the order received.
    Pairs(Vec<(WireValue, WireValue)>),
    /// Any other reply, with a description of it for diagnostics.
    Other(String),
}

/// The values that a sequence of replies stands for, in order.
pub open spec fn wire_items(items: Seq<WireValue>) -> Seq<Wire>
    decreases items,
{
    Seq::new(
        items.len(),
        |i: int|
            if 0 <= i < items.len() {
                items[i]@
            } else {
                Wire::Nil
            },
    )
}

/// The pairs that a sequence of reply pairs stands for, in order.
pub open spec fn wire_pairs(pairs: Seq<(WireValue, WireValue)>) -> Seq<(Wire, Wire)>
    decreases pairs,
{
    Seq::new(
        pairs.len(),
        |i: int|
            if 0 <= i < pairs.len() {
                (pairs[i].0@, pairs[i].1@)
            } else {
                (Wire::Nil, Wire::Nil)
            },
    )
}

impl View for WireValue {
    type V = Wire;

    open spec fn view(&self) -> Wire
        decreases self,
    {
        match self {
            WireValue::Nil => Wire::Nil,
            WireValue::Integer(i) => Wire::Integer(*i),
            WireValue::Boolean(b) => Wire::Boolean(*b),
            WireValue::Okay => Wire::Okay,
            WireValue::SimpleString(s) => Wire::SimpleString(s@),
            WireValue::BulkBytes(bytes) => Wire::BulkBytes(bytes@),
            WireValue::Double(bits) => Wire::Double(*bits),
            WireValue::VerbatimText { format: _, text } => Wire::VerbatimText(text@),
            WireValue::Array(items) => Wire::Array(wire_items(items@)),
            WireValue::Members(items) => Wire::Members(wire_items(items@)),
            WireValue::Pairs(pairs) => Wire::Pairs(wire_pairs(pairs@)),
            WireValue::Other(diagnostic) => Wire::Other(diagnostic@),
        }
    }
}

/// The text that lossy UTF-8 decoding, `String::from_utf8_lossy`, makes of
/// a byte sequence: each ill-formed part of it is replaced by U+FFFD.
pub uninterp spec fn utf8_lossy(bytes: Seq<u8>) -> Seq<char>;

/// Decodes bytes with `String::from_utf8_lossy`. The contract names the
/// result, and states that well-formed UTF-8 decodes to the text it encodes.
#[verifier::external_body]
pub(crate) fn lossy_text(bytes: &[u8]) -> (text: String)
    ensures
        text@ == utf8_lossy(bytes@),
        valid_utf8(bytes@) ==> text@ == decode_utf8(bytes@),
{
    String::from_utf8_lossy(bytes).into_owned()
}

} // verus!
