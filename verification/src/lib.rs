//! The logic of a bridge between a single-threaded host and the extended
//! attributes of a file system: what is handed to the attribute store, what is
//! made of its answers, and the life of a deferred task.
//!
//! Nothing here touches the file system. Each operation says which call of the
//! store it stands for; the caller makes that call and hands the answer in as
//! a plain value.

pub mod error;
pub mod laws;
pub mod marshal;
pub mod operations;
pub mod request;
pub mod sync;
pub mod task;
pub mod value;
