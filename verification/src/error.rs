//! Error types of the protocol layer.

use vstd::prelude::*;

verus! {

/// A violation of the protocol. None of these is an outcome of a file
/// system operation: those travel in a response's `err_code`.
#[derive(Copy, Clone, PartialEq, Eq, Debug, Structural)]
pub enum ProtocolError {
    /// A directory was announced under an identifier that is already in use.
    DuplicateDirectory { directory_id: u32 },
    /// An acknowledgement names a directory that is not waiting for one.
    UnexpectedAcknowledge { directory_id: u32 },
    /// An operation names a directory that was not acknowledged with success.
    DirectoryNotReady { directory_id: u32 },
    /// A request reuses the completion identifier of a request still pending.
    DuplicateCompletionId { completion_id: u32 },
    /// A response carries a completion identifier that no pending request has.
    UnknownCompletionId { completion_id: u32 },
    /// A response is not of the type that the pending request expects.
    UnexpectedResponseType { completion_id: u32 },
    /// A response reports more bytes than its request allows.
    LengthExceeded { completion_id: u32 },
    /// An integer that stands for no error code.
    InvalidErrCode { code: u32 },
    /// An integer that stands for no file type.
    InvalidFileType { code: u32 },
}

} // verus!
