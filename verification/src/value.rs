//! Attribute values as callers supply them.

use vstd::prelude::*;
use vstd::string::StringSliceAdditionalSpecFns;
use vstd::utf8::encode_utf8;

verus! {

/// A value for an attribute. To the store a value is a string of bytes; text is
/// accepted for convenience and stands for its UTF-8 encoding.
#[derive(Debug, PartialEq, Eq)]
pub enum AttributeValue {
    Bytes(Vec<u8>),
    Text(String),
}

impl View for AttributeValue {
    type V = Seq<u8>;

    /// The bytes that the store receives: raw bytes as they are, text in its
    /// UTF-8 encoding.
    open spec fn view(&self) -> Seq<u8> {
        match self {
            AttributeValue::Bytes(bytes) => bytes@,
            AttributeValue::Text(text) => encode_utf8(text@),
        }
    }
}

impl AttributeValue {
    /// The bytes to hand to the store.
    pub fn as_bytes(&self) -> (bytes: &[u8])
        ensures
            bytes@ == self@,
    {
        match self {
            AttributeValue::Bytes(raw) => raw.as_slice(),
            AttributeValue::Text(text) => text.as_str().as_bytes(),
        }
    }
}

} // verus!
