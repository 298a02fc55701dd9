//! Message layer of a directory-sharing protocol for remote desktop sessions.
//!
//! One endpoint announces a local directory; the other issues file system
//! operations against it. Every operation is a request that is answered by
//! exactly one response carrying the same completion identifier.
//!
//! * [`codes`]: the closed enumerations and their stable integer mapping.
//! * [`path`]: slash-separated virtual paths inside a shared directory.
//! * [`fso`]: metadata of one file system entry.
//! * [`messages`]: the message catalog.
//! * [`foreign`]: copying conversions from borrowed, unvalidated records.
//! * [`correlation`]: directory lifecycle and the pending-request table.
//! * [`error`]: the errors that report a violation of the protocol.

pub mod codes;
pub mod correlation;
pub mod error;
pub mod foreign;
pub mod fso;
pub mod messages;
pub mod path;

pub use codes::{FileType, TdpErrCode};
pub use correlation::{Correlator, Delivery, DirectoryState, Expectation, Pending};
pub use error::ProtocolError;
pub use fso::{FileSystemObject, NameExtractionError};
pub use messages::{
    OperationKind, Request, Response, SharedDirectoryAcknowledge, SharedDirectoryAnnounce,
    SharedDirectoryCreateRequest, SharedDirectoryCreateResponse, SharedDirectoryDeleteRequest,
    SharedDirectoryDeleteResponse, SharedDirectoryInfoRequest, SharedDirectoryInfoResponse,
    SharedDirectoryListRequest, SharedDirectoryListResponse, SharedDirectoryMoveRequest,
    SharedDirectoryMoveResponse, SharedDirectoryReadRequest, SharedDirectoryReadResponse,
    SharedDirectoryWriteRequest, SharedDirectoryWriteResponse,
};
pub use path::{PathSyntax, UnixPath};
