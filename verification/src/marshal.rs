//! From the answers of the attribute store to the results that callers see.

use vstd::prelude::*;
use vstd::string::StringSliceAdditionalSpecFns;
use vstd::utf8::{decode_utf8, encode_utf8_decode_utf8, valid_utf8};
use crate::error::{invalid_attribute, invalid_attribute_error, marshal_error, model, os_failure};
use crate::error::{Error, ErrorModel, OsError};

verus! {

/// An attribute name as the store returned it. It need not be valid text, so it
/// comes as bytes, together with the way it prints.
#[derive(Debug, PartialEq, Eq)]
pub struct RawName {
    pub bytes: Vec<u8>,
    pub description: String,
}

/// Calls `std::str::from_utf8`. The answer is a string slice exactly when the
/// bytes are valid UTF-8, and the slice is then made of those same bytes.
#[verifier::external_body]
fn utf8_text(bytes: &[u8]) -> (text: Option<&str>)
    ensures
        text is Some <==> valid_utf8(bytes@),
        text matches Some(slice) ==> slice.spec_bytes() == bytes@,
{
    std::str::from_utf8(bytes).ok()
}

impl RawName {
    /// Whether the name is valid text.
    pub open spec fn is_text(&self) -> bool {
        valid_utf8(self.bytes@)
    }

    /// The text of a name that is valid text.
    pub open spec fn text(&self) -> Seq<char>
        recommends
            self.is_text(),
    {
        decode_utf8(self.bytes@)
    }

    /// Reads the name as text, or says why it cannot be read.
    pub fn decode(&self) -> (decoded: Result<String, Error>)
        ensures
            decoded is Ok <==> self.is_text(),
            decoded matches Ok(text) ==> text@ == self.text(),
            decoded matches Err(error) ==> error@ == invalid_attribute(self.description@),
    {
        match utf8_text(self.bytes.as_slice()) {
            Some(slice) => {
                proof {
                    encode_utf8_decode_utf8(slice@);
                }
                Ok(slice.to_owned())
            },
            None => Err(invalid_attribute_error(self.description.as_str())),
        }
    }
}

/// `k` is the place of the first name that is not valid text.
pub open spec fn first_invalid(names: Seq<RawName>, k: int) -> bool {
    &&& 0 <= k < names.len()
    &&& !names[k].is_text()
    &&& forall|j: int| 0 <= j < k ==> names[j].is_text()
}

/// What a listing comes to. Where every name is valid text, the texts in the
/// order of the store. Otherwise the error for the first name that is not: one
/// such name fails the whole listing.
pub open spec fn names_outcome(names: Seq<RawName>) -> Result<Seq<Seq<char>>, ErrorModel> {
    if exists|k: int| first_invalid(names, k) {
        Err(invalid_attribute(names[choose|k: int| first_invalid(names, k)].description@))
    } else {
        Ok(Seq::new(names.len(), |i: int| names[i].text()))
    }
}

/// What a call of `get` comes to. The bytes that the store found are the
/// value. A store that found no such attribute, and a store that found nothing
/// at the path, both read as absence, which is no error. Any other failure of
/// the store is an error, with its code and message.
pub open spec fn get_outcome(native: Result<Option<Vec<u8>>, OsError>) -> Result<
    Option<Seq<u8>>,
    ErrorModel,
> {
    match native {
        Ok(Some(bytes)) => Ok(Some(bytes@)),
        Ok(None) => Ok(None),
        Err(failure) => if failure.not_found {
            Ok(None)
        } else {
            Err(os_failure(failure))
        },
    }
}

/// What a call of `set` or `remove` comes to: success, or the failure of the
/// store as an error.
pub open spec fn unit_outcome(native: Result<(), OsError>) -> Result<(), ErrorModel> {
    match native {
        Ok(_) => Ok(()),
        Err(failure) => Err(os_failure(failure)),
    }
}

/// What a call of `list` comes to: the failure of the store as an error, or
/// what its names come to.
pub open spec fn list_outcome(native: Result<Vec<RawName>, OsError>) -> Result<
    Seq<Seq<char>>,
    ErrorModel,
> {
    match native {
        Ok(names) => names_outcome(names@),
        Err(failure) => Err(os_failure(failure)),
    }
}

/// Reads every name as text, in the order given. The first name that is not
/// valid text ends the work with its error, and nothing of the list is returned.
pub fn marshal_names(names: Vec<RawName>) -> (texts: Result<Vec<String>, Error>)
    ensures
        model(texts) == names_outcome(names@),
{
    let mut texts: Vec<String> = Vec::new();
    let mut i: usize = 0;
    while i < names.len()
        invariant
            i <= names.len(),
            texts.len() == i,
            forall|j: int| 0 <= j < i ==> names@[j].is_text() && texts@[j]@ == names@[j].text(),
        decreases names.len() - i,
    {
        match names[i].decode() {
            Ok(text) => {
                texts.push(text);
            },
            Err(error) => {
                assert(first_invalid(names@, i as int));
                return Err(error);
            },
        }
        i += 1;
    }
    assert(texts.deep_view() =~= Seq::new(names@.len(), |i: int| names@[i].text()));
    Ok(texts)
}

} // verus!
