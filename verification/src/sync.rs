//! The blocking forms of the four operations. The caller has called the store
//! on its own thread; each function here says what it then returns.

use vstd::prelude::*;
use crate::error::{marshal_error, model, Error, OsError};
use crate::marshal::{get_outcome, list_outcome, marshal_names, unit_outcome, RawName};

verus! {

/// The value of an attribute, or `None` where there is none: the store found
/// no such attribute, or nothing at the path. Any other failure of the store
/// comes back as an error.
pub fn get_attribute_sync(native: Result<Option<Vec<u8>>, OsError>) -> (value: Result<
    Option<Vec<u8>>,
    Error,
>)
    ensures
        model(value) == get_outcome(native),
{
    match native {
        Ok(found) => {
            assert(found matches Some(bytes) ==> bytes.deep_view() =~= bytes@);
            Ok(found)
        },
        Err(failure) => if failure.not_found {
            Ok(None)
        } else {
            Err(marshal_error(failure))
        },
    }
}

/// Success where the store has set the attribute, else its failure as an error.
pub fn set_attribute_sync(native: Result<(), OsError>) -> (done: Result<(), Error>)
    ensures
        model(done) == unit_outcome(native),
{
    match native {
        Ok(_) => Ok(()),
        Err(failure) => Err(marshal_error(failure)),
    }
}

/// Success where the store has removed the attribute, else its failure as an
/// error.
pub fn remove_attribute_sync(native: Result<(), OsError>) -> (done: Result<(), Error>)
    ensures
        model(done) == unit_outcome(native),
{
    match native {
        Ok(_) => Ok(()),
        Err(failure) => Err(marshal_error(failure)),
    }
}

/// The names of the attributes as text, in the order of the store. A failure of
/// the store comes back as an error, and so does a name that is not valid text:
/// then no name is returned at all.
pub fn list_attributes_sync(native: Result<Vec<RawName>, OsError>) -> (names: Result<
    Vec<String>,
    Error,
>)
    ensures
        model(names) == list_outcome(native),
{
    match native {
        Ok(raw) => marshal_names(raw),
        Err(failure) => Err(marshal_error(failure)),
    }
}

} // verus!
