//! The four operations as tasks, and the functions that put them off.

use vstd::prelude::*;
use crate::error::{model, Error, ErrorModel, OsError};
use crate::marshal::{get_outcome, list_outcome, unit_outcome, RawName};
use crate::request::{GetRequest, ListRequest, RemoveRequest, SetRequest};
use crate::sync::{
    get_attribute_sync,
    list_attributes_sync,
    remove_attribute_sync,
    set_attribute_sync,
};
use crate::task::{AsyncTask, Task};
use crate::value::AttributeValue;

verus! {

/// Reads the attribute `name` of `path`.
pub struct GetAttributeTask {
    pub path: String,
    pub name: String,
}

impl GetAttributeTask {
    /// What the operation asks of the store: a `get` of its name at its path.
    pub fn request(&self) -> (request: GetRequest<'_>)
        ensures
            request.path@ == self.path@,
            request.name@ == self.name@,
    {
        GetRequest { path: self.path.as_str(), name: self.name.as_str() }
    }
}

impl Task for GetAttributeTask {
    type Native = Result<Option<Vec<u8>>, OsError>;

    type Output = Option<Vec<u8>>;

    open spec fn outcome(native: Self::Native) -> Result<Option<Seq<u8>>, ErrorModel> {
        get_outcome(native)
    }

    fn compute(&mut self, native: Self::Native) -> (out: Result<Self::Output, Error>) {
        get_attribute_sync(native)
    }
}

/// Sets the attribute `name` of `path` to `value`.
pub struct SetAttributeTask {
    pub path: String,
    pub name: String,
    pub value: AttributeValue,
}

impl SetAttributeTask {
    /// What the operation asks of the store: a `set` of its name at its path, to
    /// the bytes of its value. Raw bytes go as they are, text goes in its UTF-8
    /// encoding.
    pub fn request(&self) -> (request: SetRequest<'_>)
        ensures
            request.path@ == self.path@,
            request.name@ == self.name@,
            request.bytes@ == self.value@,
    {
        SetRequest {
            path: self.path.as_str(),
            name: self.name.as_str(),
            bytes: self.value.as_bytes(),
        }
    }
}

impl Task for SetAttributeTask {
    type Native = Result<(), OsError>;

    type Output = ();

    open spec fn outcome(native: Self::Native) -> Result<(), ErrorModel> {
        unit_outcome(native)
    }

    fn compute(&mut self, native: Self::Native) -> (out: Result<Self::Output, Error>) {
        set_attribute_sync(native)
    }
}

/// Removes the attribute `name` of `path`.
pub struct RemoveAttributeTask {
    pub path: String,
    pub name: String,
}

impl RemoveAttributeTask {
    /// What the operation asks of the store: a `remove` of its name at its path.
    pub fn request(&self) -> (request: RemoveRequest<'_>)
        ensures
            request.path@ == self.path@,
            request.name@ == self.name@,
    {
        RemoveRequest { path: self.path.as_str(), name: self.name.as_str() }
    }
}

impl Task for RemoveAttributeTask {
    type Native = Result<(), OsError>;

    type Output = ();

    open spec fn outcome(native: Self::Native) -> Result<(), ErrorModel> {
        unit_outcome(native)
    }

    fn compute(&mut self, native: Self::Native) -> (out: Result<Self::Output, Error>) {
        remove_attribute_sync(native)
    }
}

/// Lists the names of the attributes of `path`.
pub struct ListAttributesTask {
    pub path: String,
}

impl ListAttributesTask {
    /// What the operation asks of the store: a `list` at its path.
    pub fn request(&self) -> (request: ListRequest<'_>)
        ensures
            request.path@ == self.path@,
    {
        ListRequest { path: self.path.as_str() }
    }
}

impl Task for ListAttributesTask {
    type Native = Result<Vec<RawName>, OsError>;

    type Output = Vec<String>;

    open spec fn outcome(native: Self::Native) -> Result<Seq<Seq<char>>, ErrorModel> {
        list_outcome(native)
    }

    fn compute(&mut self, native: Self::Native) -> (out: Result<Self::Output, Error>) {
        list_attributes_sync(native)
    }
}

/// Puts off a `get`: the task comes back queued, and the caller is not held up.
pub fn get_attribute(path: String, name: String) -> (handle: AsyncTask<GetAttributeTask>)
    ensures
        handle.payload() == (GetAttributeTask { path, name }),
        handle.stage() is Queued,
{
    let mut handle = AsyncTask::new(GetAttributeTask { path, name });
    handle.submit();
    handle
}

/// Puts off a `set`: the task comes back queued, and the caller is not held up.
pub fn set_attribute(path: String, name: String, value: AttributeValue) -> (handle: AsyncTask<
    SetAttributeTask,
>)
    ensures
        handle.payload() == (SetAttributeTask { path, name, value }),
        handle.stage() is Queued,
{
    let mut handle = AsyncTask::new(SetAttributeTask { path, name, value });
    handle.submit();
    handle
}

/// Puts off a `remove`: the task comes back queued, and the caller is not held
/// up.
pub fn remove_attribute(path: String, name: String) -> (handle: AsyncTask<RemoveAttributeTask>)
    ensures
        handle.payload() == (RemoveAttributeTask { path, name }),
        handle.stage() is Queued,
{
    let mut handle = AsyncTask::new(RemoveAttributeTask { path, name });
    handle.submit();
    handle
}

/// Puts off a `list`: the task comes back queued, and the caller is not held up.
pub fn list_attributes(path: String) -> (handle: AsyncTask<ListAttributesTask>)
    ensures
        handle.payload() == (ListAttributesTask { path }),
        handle.stage() is Queued,
{
    let mut handle = AsyncTask::new(ListAttributesTask { path });
    handle.submit();
    handle
}

} // verus!
