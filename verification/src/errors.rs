//! Failure taxonomy of the harness.
//!
//! No failure is silently swallowed or retried: every one aborts its
//! enclosing operation and is surfaced to the caller.

use crate::scanner::MessageKind;
use vstd::prelude::*;

verus! {

/// Why a connector operation failed.
#[derive(Debug, Clone, Copy, PartialEq, Eq, Structural)]
pub enum OpError {
    /// The remote registry was unreachable or the image/tag does not exist.
    ImagePullError,
    /// The engine rejected creation or start of the execution unit.
    CreateError,
    /// The output stream ended before a message of the sought kind appeared.
    MessageNotFoundError { kind: MessageKind },
    /// Writing a staged input file failed.
    StagingIOError,
    /// The matched line could not be read as JSON.
    MalformedPayloadError,
    /// The caller's deadline expired before the sought message appeared.
    DeadlineExceededError,
}

/// Why binding generation rejected a harvested schema.
#[derive(Debug, Clone, PartialEq, Eq)]
pub enum SchemaError {
    /// A required field has no type declaration under the schema's
    /// properties.
    MissingType { field: String },
    /// A required field declares a kind the generator does not map.
    UnsupportedKind { field: String, kind: String },
}

} // verus!
