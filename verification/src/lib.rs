//! A dispatcher that answers HTTP requests for files under a local root.
//!
//! The dispatcher itself touches neither the file system nor the network. A
//! driver resolves each request against the root, hands the outcome to the
//! dispatcher, and sends what the dispatcher answers.

pub mod error;
pub mod filesvr;
pub mod laws;
pub mod resolved;
pub mod response;
pub mod status;

pub use crate::error::{ConstructionError, DispatchError};
pub use crate::filesvr::{
    FileService, FileServiceFuture, FileServiceMaker, Polled, Progress, Slot, Step,
};
pub use crate::resolved::{dispatch, map_outcome, unify, Resolved};
pub use crate::response::{Body, Response};
