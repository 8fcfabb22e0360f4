//! Cursor-on-Target messages: a typed envelope, the raw fragments of its free-form `detail`
//! section, and a heuristic that names the kind of message.

use vstd::prelude::*;

pub mod base;
pub mod detail;
pub mod envelope;
pub mod examples;
pub mod tak;
pub mod text;
pub mod time;
pub mod xml;

verus! {

/// Why a document could not be read.
#[derive(Clone, Debug, PartialEq, Eq)]
pub enum CotError {
    /// The tokenizer rejected the XML, or an attribute that had to be read is malformed. Holds
    /// the tokenizer's message.
    Xml(String),
    /// A required attribute or element, named here, is absent.
    MissingField(String),
    /// The named attribute holds text that is not an RFC 3339 timestamp.
    MalformedTimestamp(String),
}

/// An error as mathematical values: its kind and the name it carries, without the message of
/// the tokenizer.
pub ghost enum Fault {
    /// The XML is malformed.
    Xml,
    /// The named attribute or element is absent.
    MissingField(Seq<char>),
    /// The named attribute is not an RFC 3339 timestamp.
    MalformedTimestamp(Seq<char>),
}

impl View for CotError {
    type V = Fault;

    open spec fn view(&self) -> Fault {
        match self {
            CotError::Xml(_) => Fault::Xml,
            CotError::MissingField(name) => Fault::MissingField(name@),
            CotError::MalformedTimestamp(name) => Fault::MalformedTimestamp(name@),
        }
    }
}

} // verus!
