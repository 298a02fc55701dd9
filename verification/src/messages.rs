//! The message catalog.
//!
//! The side that shares a directory announces it and answers the operations
//! that the other side requests against it. Every request carries a
//! completion identifier, and the one response to it carries the same.

use vstd::prelude::*;

use crate::codes::{FileType, TdpErrCode};
use crate::error::ProtocolError;
use crate::fso::{FileSystemObject, FileSystemObjectView};
use crate::path::UnixPath;

verus! {

/// Announces a new directory to be shared.
#[derive(Debug, PartialEq, Eq)]
pub struct SharedDirectoryAnnounce {
    directory_id: u32,
    name: String,
}

impl SharedDirectoryAnnounce {
    /// The announcement of directory `directory_id` under the name `name`.
    pub fn new(directory_id: u32, name: String) -> (announce: SharedDirectoryAnnounce)
        ensures
            announce.spec_directory_id() == directory_id,
            announce.spec_name() == name@,
    {
        SharedDirectoryAnnounce { directory_id, name }
    }

    /// The identifier that the announcing side chose for the directory.
    pub closed spec fn spec_directory_id(&self) -> u32 {
        self.directory_id
    }

    /// The name under which the directory is shared.
    pub closed spec fn spec_name(&self) -> Seq<char> {
        self.name@
    }

    /// The identifier that the announcing side chose for the directory.
    #[verifier::when_used_as_spec(spec_directory_id)]
    pub fn directory_id(&self) -> (id: u32)
        ensures
            id == self.spec_directory_id(),
    {
        self.directory_id
    }

    /// The name under which the directory is shared.
    pub fn name(&self) -> (name: &str)
        ensures
            name@ == self.spec_name(),
    {
        self.name.as_str()
    }
}

/// Acknowledges an announcement; the directory is usable if `err_code` is
/// `Nil`.
#[derive(Debug, Copy, Clone, PartialEq, Eq, Structural)]
pub struct SharedDirectoryAcknowledge {
    pub err_code: TdpErrCode,
    pub directory_id: u32,
}

/// Asks for the metadata of the entry at `path`.
#[derive(Debug, PartialEq, Eq)]
pub struct SharedDirectoryInfoRequest {
    pub completion_id: u32,
    pub directory_id: u32,
    pub path: UnixPath,
}

/// Answers a [`SharedDirectoryInfoRequest`].
#[derive(Debug, PartialEq, Eq)]
pub struct SharedDirectoryInfoResponse {
    pub completion_id: u32,
    pub err_code: TdpErrCode,
    pub fso: FileSystemObject,
}

/// Asks for a new file or directory at `path`.
#[derive(Debug, PartialEq, Eq)]
pub struct SharedDirectoryCreateRequest {
    pub completion_id: u32,
    pub directory_id: u32,
    pub file_type: FileType,
    pub path: UnixPath,
}

/// Answers a [`SharedDirectoryCreateRequest`].
#[derive(Debug, PartialEq, Eq)]
pub struct SharedDirectoryCreateResponse {
    pub completion_id: u32,
    pub err_code: TdpErrCode,
    pub fso: FileSystemObject,
}

/// Asks for the entry at `path` to be deleted.
#[derive(Debug, PartialEq, Eq)]
pub struct SharedDirectoryDeleteRequest {
    pub completion_id: u32,
    pub directory_id: u32,
    pub path: UnixPath,
}

/// Answers a [`SharedDirectoryDeleteRequest`].
#[derive(Debug, Copy, Clone, PartialEq, Eq, Structural)]
pub struct SharedDirectoryDeleteResponse {
    pub completion_id: u32,
    pub err_code: TdpErrCode,
}

/// Asks for the entries of the directory at `path`.
#[derive(Debug, PartialEq, Eq)]
pub struct SharedDirectoryListRequest {
    pub completion_id: u32,
    pub directory_id: u32,
    pub path: UnixPath,
}

/// Answers a [`SharedDirectoryListRequest`]. The entries stand in the order
/// in which the directory was enumerated.
#[derive(Debug, PartialEq, Eq)]
pub struct SharedDirectoryListResponse {
    pub completion_id: u32,
    pub err_code: TdpErrCode,
    pub fso_list: Vec<FileSystemObject>,
}

/// Asks for up to `length` bytes of the file at `path`, from `offset` on.
#[derive(Debug, PartialEq, Eq)]
pub struct SharedDirectoryReadRequest {
    pub completion_id: u32,
    pub directory_id: u32,
    pub path: UnixPath,
    pub offset: u64,
    pub length: u32,
}

/// Answers a [`SharedDirectoryReadRequest`] with the bytes that were read,
/// which may be fewer than were asked for.
#[derive(Debug, PartialEq, Eq)]
pub struct SharedDirectoryReadResponse {
    pub completion_id: u32,
    pub err_code: TdpErrCode,
    pub read_data: Vec<u8>,
}

/// Asks for `write_data` to be written to the file at `path`, from `offset`
/// on. The number of bytes is the length of `write_data`.
#[derive(Debug, PartialEq, Eq)]
pub struct SharedDirectoryWriteRequest {
    pub completion_id: u32,
    pub directory_id: u32,
    pub offset: u64,
    pub path: UnixPath,
    pub write_data: Vec<u8>,
}

/// Answers a [`SharedDirectoryWriteRequest`] with the number of bytes that
/// were written, which may be fewer than were sent.
#[derive(Debug, Copy, Clone, PartialEq, Eq, Structural)]
pub struct SharedDirectoryWriteResponse {
    pub completion_id: u32,
    pub err_code: TdpErrCode,
    pub bytes_written: u32,
}

/// Asks for the entry at `original_path` to be moved to `new_path`.
#[derive(Debug, PartialEq, Eq)]
pub struct SharedDirectoryMoveRequest {
    pub completion_id: u32,
    pub directory_id: u32,
    pub original_path: UnixPath,
    pub new_path: UnixPath,
}

/// Answers a [`SharedDirectoryMoveRequest`].
#[derive(Debug, Copy, Clone, PartialEq, Eq, Structural)]
pub struct SharedDirectoryMoveResponse {
    pub completion_id: u32,
    pub err_code: TdpErrCode,
}

/// What a [`SharedDirectoryInfoResponse`] holds, the entry by its view.
pub struct InfoResponseView {
    pub completion_id: u32,
    pub err_code: TdpErrCode,
    pub fso: FileSystemObjectView,
}

impl View for SharedDirectoryInfoResponse {
    type V = InfoResponseView;

    open spec fn view(&self) -> InfoResponseView {
        InfoResponseView {
            completion_id: self.completion_id,
            err_code: self.err_code,
            fso: self.fso@,
        }
    }
}

/// What a [`SharedDirectoryCreateResponse`] holds, the entry by its view.
pub struct CreateResponseView {
    pub completion_id: u32,
    pub err_code: TdpErrCode,
    pub fso: FileSystemObjectView,
}

impl View for SharedDirectoryCreateResponse {
    type V = CreateResponseView;

    open spec fn view(&self) -> CreateResponseView {
        CreateResponseView {
            completion_id: self.completion_id,
            err_code: self.err_code,
            fso: self.fso@,
        }
    }
}

/// What a [`SharedDirectoryListResponse`] holds, each entry by its view.
pub struct ListResponseView {
    pub completion_id: u32,
    pub err_code: TdpErrCode,
    pub fso_list: Seq<FileSystemObjectView>,
}

impl View for SharedDirectoryListResponse {
    type V = ListResponseView;

    open spec fn view(&self) -> ListResponseView {
        ListResponseView {
            completion_id: self.completion_id,
            err_code: self.err_code,
            fso_list: self.fso_list@.map_values(|fso: FileSystemObject| fso@),
        }
    }
}

/// What a [`SharedDirectoryReadResponse`] holds, the data as a sequence.
pub struct ReadResponseView {
    pub completion_id: u32,
    pub err_code: TdpErrCode,
    pub read_data: Seq<u8>,
}

impl View for SharedDirectoryReadResponse {
    type V = ReadResponseView;

    open spec fn view(&self) -> ReadResponseView {
        ReadResponseView {
            completion_id: self.completion_id,
            err_code: self.err_code,
            read_data: self.read_data@,
        }
    }
}

/// The operations that can be requested against a shared directory.
#[derive(Debug, Copy, Clone, PartialEq, Eq, Structural)]
pub enum OperationKind {
    Info,
    Create,
    Delete,
    List,
    Read,
    Write,
    Move,
}

/// Any request against a shared directory.
#[derive(Debug, PartialEq, Eq)]
pub enum Request {
    Info(SharedDirectoryInfoRequest),
    Create(SharedDirectoryCreateRequest),
    Delete(SharedDirectoryDeleteRequest),
    List(SharedDirectoryListRequest),
    Read(SharedDirectoryReadRequest),
    Write(SharedDirectoryWriteRequest),
    Move(SharedDirectoryMoveRequest),
}

/// Any response to a request.
#[derive(Debug, PartialEq, Eq)]
pub enum Response {
    Info(SharedDirectoryInfoResponse),
    Create(SharedDirectoryCreateResponse),
    Delete(SharedDirectoryDeleteResponse),
    List(SharedDirectoryListResponse),
    Read(SharedDirectoryReadResponse),
    Write(SharedDirectoryWriteResponse),
    Move(SharedDirectoryMoveResponse),
}

impl Request {
    /// The operation that is asked for.
    pub open spec fn spec_kind(&self) -> OperationKind {
        match self {
            Request::Info(_) => OperationKind::Info,
            Request::Create(_) => OperationKind::Create,
            Request::Delete(_) => OperationKind::Delete,
            Request::List(_) => OperationKind::List,
            Request::Read(_) => OperationKind::Read,
            Request::Write(_) => OperationKind::Write,
            Request::Move(_) => OperationKind::Move,
        }
    }

    /// The completion identifier that the response has to carry.
    pub open spec fn spec_completion_id(&self) -> u32 {
        match self {
            Request::Info(r) => r.completion_id,
            Request::Create(r) => r.completion_id,
            Request::Delete(r) => r.completion_id,
            Request::List(r) => r.completion_id,
            Request::Read(r) => r.completion_id,
            Request::Write(r) => r.completion_id,
            Request::Move(r) => r.completion_id,
        }
    }

    /// The directory that the operation is asked against.
    pub open spec fn spec_directory_id(&self) -> u32 {
        match self {
            Request::Info(r) => r.directory_id,
            Request::Create(r) => r.directory_id,
            Request::Delete(r) => r.directory_id,
            Request::List(r) => r.directory_id,
            Request::Read(r) => r.directory_id,
            Request::Write(r) => r.directory_id,
            Request::Move(r) => r.directory_id,
        }
    }

    /// The most bytes that the response may report: the length asked for by a
    /// read, the length of the payload of a write, and 0 for every other
    /// request, whose response reports none.
    pub open spec fn spec_byte_limit(&self) -> u64 {
        match self {
            Request::Read(r) => r.length as u64,
            Request::Write(r) => r.write_data.len() as u64,
            _ => 0,
        }
    }

    /// The operation that is asked for.
    #[verifier::when_used_as_spec(spec_kind)]
    pub fn kind(&self) -> (kind: OperationKind)
        ensures
            kind == self.spec_kind(),
    {
        match self {
            Request::Info(_) => OperationKind::Info,
            Request::Create(_) => OperationKind::Create,
            Request::Delete(_) => OperationKind::Delete,
            Request::List(_) => OperationKind::List,
            Request::Read(_) => OperationKind::Read,
            Request::Write(_) => OperationKind::Write,
            Request::Move(_) => OperationKind::Move,
        }
    }

    /// The completion identifier that the response has to carry.
    #[verifier::when_used_as_spec(spec_completion_id)]
    pub fn completion_id(&self) -> (id: u32)
        ensures
            id == self.spec_completion_id(),
    {
        match self {
            Request::Info(r) => r.completion_id,
            Request::Create(r) => r.completion_id,
            Request::Delete(r) => r.completion_id,
            Request::List(r) => r.completion_id,
            Request::Read(r) => r.completion_id,
            Request::Write(r) => r.completion_id,
            Request::Move(r) => r.completion_id,
        }
    }

    /// The directory that the operation is asked against.
    #[verifier::when_used_as_spec(spec_directory_id)]
    pub fn directory_id(&self) -> (id: u32)
        ensures
            id == self.spec_directory_id(),
    {
        match self {
            Request::Info(r) => r.directory_id,
            Request::Create(r) => r.directory_id,
            Request::Delete(r) => r.directory_id,
            Request::List(r) => r.directory_id,
            Request::Read(r) => r.directory_id,
            Request::Write(r) => r.directory_id,
            Request::Move(r) => r.directory_id,
        }
    }

    /// The most bytes that the response may report.
    #[verifier::when_used_as_spec(spec_byte_limit)]
    pub fn byte_limit(&self) -> (limit: u64)
        ensures
            limit == self.spec_byte_limit(),
    {
        match self {
            Request::Read(r) => r.length as u64,
            Request::Write(r) => r.write_data.len() as u64,
            _ => 0,
        }
    }
}

impl Response {
    /// The operation that is answered.
    pub open spec fn spec_kind(&self) -> OperationKind {
        match self {
            Response::Info(_) => OperationKind::Info,
            Response::Create(_) => OperationKind::Create,
            Response::Delete(_) => OperationKind::Delete,
            Response::List(_) => OperationKind::List,
            Response::Read(_) => OperationKind::Read,
            Response::Write(_) => OperationKind::Write,
            Response::Move(_) => OperationKind::Move,
        }
    }

    /// The completion identifier of the request that is answered.
    pub open spec fn spec_completion_id(&self) -> u32 {
        match self {
            Response::Info(r) => r.completion_id,
            Response::Create(r) => r.completion_id,
            Response::Delete(r) => r.completion_id,
            Response::List(r) => r.completion_id,
            Response::Read(r) => r.completion_id,
            Response::Write(r) => r.completion_id,
            Response::Move(r) => r.completion_id,
        }
    }

    /// The outcome of the operation.
    pub open spec fn spec_err_code(&self) -> TdpErrCode {
        match self {
            Response::Info(r) => r.err_code,
            Response::Create(r) => r.err_code,
            Response::Delete(r) => r.err_code,
            Response::List(r) => r.err_code,
            Response::Read(r) => r.err_code,
            Response::Write(r) => r.err_code,
            Response::Move(r) => r.err_code,
        }
    }

    /// The number of bytes that the response reports: those it returns for a
    /// read, those it counts as written for a write, and 0 otherwise.
    pub open spec fn spec_byte_count(&self) -> u64 {
        match self {
            Response::Read(r) => r.read_data.len() as u64,
            Response::Write(r) => r.bytes_written as u64,
            _ => 0,
        }
    }

    /// The operation that is answered.
    #[verifier::when_used_as_spec(spec_kind)]
    pub fn kind(&self) -> (kind: OperationKind)
        ensures
            kind == self.spec_kind(),
    {
        match self {
            Response::Info(_) => OperationKind::Info,
            Response::Create(_) => OperationKind::Create,
            Response::Delete(_) => OperationKind::Delete,
            Response::List(_) => OperationKind::List,
            Response::Read(_) => OperationKind::Read,
            Response::Write(_) => OperationKind::Write,
            Response::Move(_) => OperationKind::Move,
        }
    }

    /// The completion identifier of the request that is answered.
    #[verifier::when_used_as_spec(spec_completion_id)]
    pub fn completion_id(&self) -> (id: u32)
        ensures
            id == self.spec_completion_id(),
    {
        match self {
            Response::Info(r) => r.completion_id,
            Response::Create(r) => r.completion_id,
            Response::Delete(r) => r.completion_id,
            Response::List(r) => r.completion_id,
            Response::Read(r) => r.completion_id,
            Response::Write(r) => r.completion_id,
            Response::Move(r) => r.completion_id,
        }
    }

    /// The outcome of the operation.
    #[verifier::when_used_as_spec(spec_err_code)]
    pub fn err_code(&self) -> (code: TdpErrCode)
        ensures
            code == self.spec_err_code(),
    {
        match self {
            Response::Info(r) => r.err_code,
            Response::Create(r) => r.err_code,
            Response::Delete(r) => r.err_code,
            Response::List(r) => r.err_code,
            Response::Read(r) => r.err_code,
            Response::Write(r) => r.err_code,
            Response::Move(r) => r.err_code,
        }
    }

    /// The number of bytes that the response reports.
    #[verifier::when_used_as_spec(spec_byte_count)]
    pub fn byte_count(&self) -> (count: u64)
        ensures
            count == self.spec_byte_count(),
    {
        match self {
            Response::Read(r) => r.read_data.len() as u64,
            Response::Write(r) => r.bytes_written as u64,
            _ => 0,
        }
    }
}

impl SharedDirectoryInfoRequest {
    /// The response to this request: it carries the same completion
    /// identifier.
    pub fn reply(&self, err_code: TdpErrCode, fso: FileSystemObject) -> (response:
        SharedDirectoryInfoResponse)
        ensures
            response.completion_id == self.completion_id,
            response.err_code == err_code,
            response.fso == fso,
    {
        SharedDirectoryInfoResponse { completion_id: self.completion_id, err_code, fso }
    }
}

impl SharedDirectoryCreateRequest {
    /// The response to this request: it carries the same completion
    /// identifier.
    pub fn reply(&self, err_code: TdpErrCode, fso: FileSystemObject) -> (response:
        SharedDirectoryCreateResponse)
        ensures
            response.completion_id == self.completion_id,
            response.err_code == err_code,
            response.fso == fso,
    {
        SharedDirectoryCreateResponse { completion_id: self.completion_id, err_code, fso }
    }
}

impl SharedDirectoryDeleteRequest {
    /// The response to this request: it carries the same completion
    /// identifier.
    pub fn reply(&self, err_code: TdpErrCode) -> (response: SharedDirectoryDeleteResponse)
        ensures
            response.completion_id == self.completion_id,
            response.err_code == err_code,
    {
        SharedDirectoryDeleteResponse { completion_id: self.completion_id, err_code }
    }
}

impl SharedDirectoryListRequest {
    /// The response to this request: it carries the same completion
    /// identifier, and the entries in the order given.
    pub fn reply(&self, err_code: TdpErrCode, fso_list: Vec<FileSystemObject>) -> (response:
        SharedDirectoryListResponse)
        ensures
            response.completion_id == self.completion_id,
            response.err_code == err_code,
            response.fso_list == fso_list,
    {
        SharedDirectoryListResponse { completion_id: self.completion_id, err_code, fso_list }
    }
}

impl SharedDirectoryReadRequest {
    /// The response to this request: it carries the same completion
    /// identifier.
    ///
    /// Fails exactly if `read_data` holds more bytes than were asked for.
    pub fn reply(&self, err_code: TdpErrCode, read_data: Vec<u8>) -> (res: Result<
        SharedDirectoryReadResponse,
        ProtocolError,
    >)
        ensures
            res is Ok <==> read_data@.len() <= self.length,
            res matches Ok(response) ==> response.completion_id == self.completion_id
                && response.err_code == err_code && response.read_data == read_data,
            res matches Err(e) ==> e == (ProtocolError::LengthExceeded {
                completion_id: self.completion_id,
            }),
    {
        if read_data.len() as u64 > self.length as u64 {
            Err(ProtocolError::LengthExceeded { completion_id: self.completion_id })
        } else {
            Ok(
                SharedDirectoryReadResponse {
                    completion_id: self.completion_id,
                    err_code,
                    read_data,
                },
            )
        }
    }
}

impl SharedDirectoryWriteRequest {
    /// The response to this request: it carries the same completion
    /// identifier.
    ///
    /// Fails exactly if `bytes_written` is more than the payload holds.
    pub fn reply(&self, err_code: TdpErrCode, bytes_written: u32) -> (res: Result<
        SharedDirectoryWriteResponse,
        ProtocolError,
    >)
        ensures
            res is Ok <==> bytes_written <= self.write_data@.len(),
            res matches Ok(response) ==> response.completion_id == self.completion_id
                && response.err_code == err_code && response.bytes_written == bytes_written,
            res matches Err(e) ==> e == (ProtocolError::LengthExceeded {
                completion_id: self.completion_id,
            }),
    {
        if bytes_written as u64 > self.write_data.len() as u64 {
            Err(ProtocolError::LengthExceeded { completion_id: self.completion_id })
        } else {
            Ok(
                SharedDirectoryWriteResponse {
                    completion_id: self.completion_id,
                    err_code,
                    bytes_written,
                },
            )
        }
    }
}

impl Clone for SharedDirectoryWriteRequest {
    /// A copy with the same fields, the payload included.
    fn clone(&self) -> (copy: SharedDirectoryWriteRequest)
        ensures
            copy.completion_id == self.completion_id,
            copy.directory_id == self.directory_id,
            copy.offset == self.offset,
            copy.path@ == self.path@,
            copy.write_data@ == self.write_data@,
    {
        SharedDirectoryWriteRequest {
            completion_id: self.completion_id,
            directory_id: self.directory_id,
            offset: self.offset,
            path: self.path.clone(),
            write_data: self.write_data.clone(),
        }
    }
}

impl SharedDirectoryMoveRequest {
    /// The response to this request: it carries the same completion
    /// identifier.
    pub fn reply(&self, err_code: TdpErrCode) -> (response: SharedDirectoryMoveResponse)
        ensures
            response.completion_id == self.completion_id,
            response.err_code == err_code,
    {
        SharedDirectoryMoveResponse { completion_id: self.completion_id, err_code }
    }
}

} // verus!
