//! What is asked of the attribute store. The library makes no call itself: it
//! says which call is to be made, and with what, and the caller makes it. The
//! type of a request says which call of the store is meant.

use vstd::prelude::*;

verus! {

/// Read the attribute `name` of `path`.
#[derive(Debug, Clone, Copy, PartialEq, Eq)]
pub struct GetRequest<'a> {
    pub path: &'a str,
    pub name: &'a str,
}

/// Set the attribute `name` of `path` to `bytes`.
#[derive(Debug, Clone, Copy, PartialEq, Eq)]
pub struct SetRequest<'a> {
    pub path: &'a str,
    pub name: &'a str,
    pub bytes: &'a [u8],
}

/// Remove the attribute `name` of `path`.
#[derive(Debug, Clone, Copy, PartialEq, Eq)]
pub struct RemoveRequest<'a> {
    pub path: &'a str,
    pub name: &'a str,
}

/// List the names of the attributes of `path`.
#[derive(Debug, Clone, Copy, PartialEq, Eq)]
pub struct ListRequest<'a> {
    pub path: &'a str,
}

} // verus!
