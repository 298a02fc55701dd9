//! Copying conversions from the records of the marshalling boundary.
//!
//! The other runtime hands messages over as records that borrow their
//! strings, byte buffers and arrays, and that carry enumerations as plain
//! integers. A conversion copies everything it keeps into owned storage and
//! validates the integers, so that nothing borrowed outlives the call.

use vstd::prelude::*;
use vstd::slice::*;

use crate::codes::{FileType, TdpErrCode};
use crate::error::ProtocolError;
use crate::fso::{FileSystemObject, FileSystemObjectView};
use crate::messages::{
    CreateResponseView, InfoResponseView, ListResponseView, ReadResponseView,
    SharedDirectoryAnnounce, SharedDirectoryCreateResponse, SharedDirectoryInfoRequest,
    SharedDirectoryInfoResponse, SharedDirectoryListResponse, SharedDirectoryReadResponse,
};
use crate::path::{split_path, PathSyntax, UnixPath};

verus! {

/// A file system entry as it is handed over: the path as text, the file
/// type as an integer.
#[derive(Debug, Copy, Clone)]
pub struct ForeignFileSystemObject<'a> {
    pub last_modified: u64,
    pub size: u64,
    pub file_type: u32,
    pub is_empty: u8,
    pub path: &'a str,
}

/// An announcement as it is handed over.
#[derive(Debug, Copy, Clone)]
pub struct ForeignAnnounce<'a> {
    pub directory_id: u32,
    pub name: &'a str,
}

/// The response to an info request as it is handed over.
#[derive(Debug, Copy, Clone)]
pub struct ForeignInfoResponse<'a> {
    pub completion_id: u32,
    pub err_code: u32,
    pub fso: ForeignFileSystemObject<'a>,
}

/// The response to a create request as it is handed over.
#[derive(Debug, Copy, Clone)]
pub struct ForeignCreateResponse<'a> {
    pub completion_id: u32,
    pub err_code: u32,
    pub fso: ForeignFileSystemObject<'a>,
}

/// The response to a list request as it is handed over.
#[derive(Debug, Copy, Clone)]
pub struct ForeignListResponse<'a> {
    pub completion_id: u32,
    pub err_code: u32,
    pub fso_list: &'a [ForeignFileSystemObject<'a>],
}

/// The response to a read request as it is handed over.
#[derive(Debug, Copy, Clone)]
pub struct ForeignReadResponse<'a> {
    pub completion_id: u32,
    pub err_code: u32,
    pub read_data: &'a [u8],
}

/// Whether `res` is what `expected` describes: the value with that view, or
/// the same error.
pub open spec fn converts_to<T: View>(
    res: Result<T, ProtocolError>,
    expected: Result<T::V, ProtocolError>,
) -> bool {
    match res {
        Ok(value) => expected == Ok::<T::V, ProtocolError>(value@),
        Err(e) => expected == Err::<T::V, ProtocolError>(e),
    }
}

/// The one way from a foreign record of type `F` into the protocol layer:
/// everything that is kept is copied, and every integer that stands for an
/// enumeration is validated.
pub trait FromForeign<F>: Sized + View {
    /// What `foreign` converts to: the view of the value, or the error that
    /// rejects the record.
    spec fn expected(foreign: F) -> Result<Self::V, ProtocolError>;

    /// Copies a value out of its foreign record.
    fn from_foreign(foreign: F) -> (res: Result<Self, ProtocolError>)
        ensures
            converts_to(res, Self::expected(foreign)),
    ;
}

impl<'a> ForeignFileSystemObject<'a> {
    /// What the entry converts to: the same metadata, the file type decoded
    /// and the path split into its components; or the error of a file type
    /// that stands for none.
    pub open spec fn converted(&self) -> Result<FileSystemObjectView, ProtocolError> {
        match FileType::spec_from_code(self.file_type) {
            Ok(file_type) => Ok(
                FileSystemObjectView {
                    last_modified: self.last_modified,
                    size: self.size,
                    file_type,
                    is_empty: self.is_empty,
                    path: split_path(self.path@, PathSyntax::Unix),
                },
            ),
            Err(e) => Err(e),
        }
    }
}

/// The error of the first entry of `list` that does not convert, or `None`
/// if every entry converts.
pub open spec fn first_rejected(list: Seq<ForeignFileSystemObject<'_>>) -> Option<ProtocolError>
    decreases list.len(),
{
    if list.len() == 0 {
        None
    } else {
        match list[0].converted() {
            Err(e) => Some(e),
            Ok(_) => first_rejected(list.skip(1)),
        }
    }
}

/// The entries of `list` converted one by one, each at its own position.
pub open spec fn converted_list(list: Seq<ForeignFileSystemObject<'_>>) -> Seq<
    FileSystemObjectView,
> {
    list.map_values(|f: ForeignFileSystemObject<'_>| f.converted()->Ok_0)
}

impl<'a> ForeignInfoResponse<'a> {
    /// What the response converts to. The error code is looked at first.
    pub open spec fn converted(&self) -> Result<InfoResponseView, ProtocolError> {
        match TdpErrCode::spec_from_code(self.err_code) {
            Err(e) => Err(e),
            Ok(err_code) => match self.fso.converted() {
                Err(e) => Err(e),
                Ok(fso) => Ok(
                    InfoResponseView { completion_id: self.completion_id, err_code, fso },
                ),
            },
        }
    }
}

impl<'a> ForeignCreateResponse<'a> {
    /// What the response converts to. The error code is looked at first.
    pub open spec fn converted(&self) -> Result<CreateResponseView, ProtocolError> {
        match TdpErrCode::spec_from_code(self.err_code) {
            Err(e) => Err(e),
            Ok(err_code) => match self.fso.converted() {
                Err(e) => Err(e),
                Ok(fso) => Ok(
                    CreateResponseView { completion_id: self.completion_id, err_code, fso },
                ),
            },
        }
    }
}

impl<'a> ForeignListResponse<'a> {
    /// What the response converts to. The error code is looked at first,
    /// then the entries from first to last; the entries keep their order.
    pub open spec fn converted(&self) -> Result<ListResponseView, ProtocolError> {
        match TdpErrCode::spec_from_code(self.err_code) {
            Err(e) => Err(e),
            Ok(err_code) => match first_rejected(self.fso_list@) {
                Some(e) => Err(e),
                None => Ok(
                    ListResponseView {
                        completion_id: self.completion_id,
                        err_code,
                        fso_list: converted_list(self.fso_list@),
                    },
                ),
            },
        }
    }
}

impl<'a> ForeignReadResponse<'a> {
    /// What the response converts to.
    pub open spec fn converted(&self) -> Result<ReadResponseView, ProtocolError> {
        match TdpErrCode::spec_from_code(self.err_code) {
            Err(e) => Err(e),
            Ok(err_code) => Ok(
                ReadResponseView {
                    completion_id: self.completion_id,
                    err_code,
                    read_data: self.read_data@,
                },
            ),
        }
    }
}

impl<'a> FromForeign<ForeignFileSystemObject<'a>> for FileSystemObject {
    open spec fn expected(foreign: ForeignFileSystemObject<'a>) -> Result<
        FileSystemObjectView,
        ProtocolError,
    > {
        foreign.converted()
    }

    /// Copies an entry out of its foreign record.
    fn from_foreign(foreign: ForeignFileSystemObject<'a>) -> (res: Result<
        FileSystemObject,
        ProtocolError,
    >)
        ensures
            converts_to(res, foreign.converted()),
    {
        match FileType::from_code(foreign.file_type) {
            Ok(file_type) => Ok(
                FileSystemObject {
                    last_modified: foreign.last_modified,
                    size: foreign.size,
                    file_type,
                    is_empty: foreign.is_empty,
                    path: UnixPath::new(foreign.path),
                },
            ),
            Err(e) => Err(e),
        }
    }
}

impl SharedDirectoryAnnounce {
    /// Copies an announcement out of its foreign record.
    pub fn from_foreign(foreign: ForeignAnnounce<'_>) -> (announce: SharedDirectoryAnnounce)
        ensures
            announce.spec_directory_id() == foreign.directory_id,
            announce.spec_name() == foreign.name@,
    {
        SharedDirectoryAnnounce::new(foreign.directory_id, foreign.name.to_owned())
    }
}

impl SharedDirectoryInfoRequest {
    /// The info request that a drive-redirection create request of the
    /// remote desktop turns into: same completion identifier, the device as
    /// the directory, and the path read from its Windows form.
    pub fn from_drive_request(completion_id: u32, device_id: u32, path: &str) -> (request:
        SharedDirectoryInfoRequest)
        ensures
            request.completion_id == completion_id,
            request.directory_id == device_id,
            request.path@ == split_path(path@, PathSyntax::Windows),
    {
        SharedDirectoryInfoRequest {
            completion_id,
            directory_id: device_id,
            path: UnixPath::from_windows(path),
        }
    }
}

impl<'a> FromForeign<ForeignInfoResponse<'a>> for SharedDirectoryInfoResponse {
    open spec fn expected(foreign: ForeignInfoResponse<'a>) -> Result<
        InfoResponseView,
        ProtocolError,
    > {
        foreign.converted()
    }

    /// Copies a response out of its foreign record.
    fn from_foreign(foreign: ForeignInfoResponse<'a>) -> (res: Result<
        SharedDirectoryInfoResponse,
        ProtocolError,
    >)
        ensures
            converts_to(res, foreign.converted()),
    {
        let err_code = match TdpErrCode::from_code(foreign.err_code) {
            Ok(code) => code,
            Err(e) => {
                return Err(e);
            },
        };
        match FileSystemObject::from_foreign(foreign.fso) {
            Ok(fso) => Ok(
                SharedDirectoryInfoResponse { completion_id: foreign.completion_id, err_code, fso },
            ),
            Err(e) => Err(e),
        }
    }
}

impl<'a> FromForeign<ForeignCreateResponse<'a>> for SharedDirectoryCreateResponse {
    open spec fn expected(foreign: ForeignCreateResponse<'a>) -> Result<
        CreateResponseView,
        ProtocolError,
    > {
        foreign.converted()
    }

    /// Copies a response out of its foreign record.
    fn from_foreign(foreign: ForeignCreateResponse<'a>) -> (res: Result<
        SharedDirectoryCreateResponse,
        ProtocolError,
    >)
        ensures
            converts_to(res, foreign.converted()),
    {
        let err_code = match TdpErrCode::from_code(foreign.err_code) {
            Ok(code) => code,
            Err(e) => {
                return Err(e);
            },
        };
        match FileSystemObject::from_foreign(foreign.fso) {
            Ok(fso) => Ok(
                SharedDirectoryCreateResponse {
                    completion_id: foreign.completion_id,
                    err_code,
                    fso,
                },
            ),
            Err(e) => Err(e),
        }
    }
}

impl<'a> FromForeign<ForeignReadResponse<'a>> for SharedDirectoryReadResponse {
    open spec fn expected(foreign: ForeignReadResponse<'a>) -> Result<
        ReadResponseView,
        ProtocolError,
    > {
        foreign.converted()
    }

    /// Copies a response and its data out of its foreign record.
    fn from_foreign(foreign: ForeignReadResponse<'a>) -> (res: Result<
        SharedDirectoryReadResponse,
        ProtocolError,
    >)
        ensures
            converts_to(res, foreign.converted()),
    {
        match TdpErrCode::from_code(foreign.err_code) {
            Ok(err_code) => Ok(
                SharedDirectoryReadResponse {
                    completion_id: foreign.completion_id,
                    err_code,
                    read_data: slice_to_vec(foreign.read_data),
                },
            ),
            Err(e) => Err(e),
        }
    }
}

impl<'a> FromForeign<ForeignListResponse<'a>> for SharedDirectoryListResponse {
    open spec fn expected(foreign: ForeignListResponse<'a>) -> Result<
        ListResponseView,
        ProtocolError,
    > {
        foreign.converted()
    }

    /// Copies a response and its entries out of its foreign record. The
    /// entries are converted from first to last and keep their order.
    fn from_foreign(foreign: ForeignListResponse<'a>) -> (res: Result<
        SharedDirectoryListResponse,
        ProtocolError,
    >)
        ensures
            converts_to(res, foreign.converted()),
    {
        let err_code = match TdpErrCode::from_code(foreign.err_code) {
            Ok(code) => code,
            Err(e) => {
                return Err(e);
            },
        };
        let list = foreign.fso_list;
        let mut fso_list: Vec<FileSystemObject> = Vec::new();
        let mut i: usize = 0;
        proof {
            assert(list@.skip(0) =~= list@);
        }
        while i < list.len()
            invariant
                list == foreign.fso_list,
                TdpErrCode::spec_from_code(foreign.err_code) == Ok::<TdpErrCode, ProtocolError>(
                    err_code,
                ),
                i <= list@.len(),
                fso_list@.len() == i,
                first_rejected(list@) == first_rejected(list@.skip(i as int)),
                forall|j: int|
                    0 <= j < i ==> list@[j].converted() == Ok::<
                        FileSystemObjectView,
                        ProtocolError,
                    >(#[trigger] fso_list@[j]@),
            decreases list@.len() - i,
        {
            proof {
                let rest = list@.skip(i as int);
                assert(rest[0] == list@[i as int]);
                assert(rest.skip(1) =~= list@.skip(i + 1));
            }
            match FileSystemObject::from_foreign(list[i]) {
                Ok(fso) => {
                    fso_list.push(fso);
                },
                Err(e) => {
                    return Err(e);
                },
            }
            i = i + 1;
        }
        let response = SharedDirectoryListResponse {
            completion_id: foreign.completion_id,
            err_code,
            fso_list,
        };
        proof {
            assert(list@.skip(i as int).len() == 0);
            assert(response@.fso_list =~= converted_list(list@));
        }
        Ok(response)
    }
}

/// Every entry converts exactly when none is rejected, and the entry that
/// is rejected is the first one that does not convert.
pub proof fn lemma_first_rejected(list: Seq<ForeignFileSystemObject<'_>>)
    ensures
        first_rejected(list) is None <==> forall|i: int|
            0 <= i < list.len() ==> (#[trigger] list[i]).converted() is Ok,
        first_rejected(list) matches Some(e) ==> exists|k: int|
            0 <= k < list.len() && (#[trigger] list[k]).converted() == Err::<
                FileSystemObjectView,
                ProtocolError,
            >(e) && forall|j: int| 0 <= j < k ==> (#[trigger] list[j]).converted() is Ok,
    decreases list.len(),
{
    if list.len() > 0 {
        let rest = list.skip(1);
        lemma_first_rejected(rest);
        assert forall|i: int| 0 <= i < rest.len() implies rest[i] == list[i + 1] by {}
        match list[0].converted() {
            Err(e) => {
                assert(first_rejected(list) == Some(e));
            },
            Ok(_) => {
                if first_rejected(rest) is None {
                    assert forall|i: int| 0 <= i < list.len() implies (
                    #[trigger] list[i]).converted() is Ok by {
                        if i > 0 {
                            assert(rest[i - 1] == list[i]);
                        }
                    }
                } else {
                    let e = first_rejected(rest)->Some_0;
                    let k = choose|k: int|
                        0 <= k < rest.len() && (#[trigger] rest[k]).converted() == Err::<
                            FileSystemObjectView,
                            ProtocolError,
                        >(e) && forall|j: int|
                            0 <= j < k ==> (#[trigger] rest[j]).converted() is Ok;
                    assert(list[k + 1] == rest[k]);
                    assert forall|j: int| 0 <= j < k + 1 implies (
                    #[trigger] list[j]).converted() is Ok by {
                        if j > 0 {
                            assert(rest[j - 1] == list[j]);
                        }
                    }
                    assert(0 <= k + 1 < list.len() && list[k + 1].converted() == Err::<
                        FileSystemObjectView,
                        ProtocolError,
                    >(e));
                }
            },
        }
    }
}

/// Conversion keeps the order of the entries: handing the entries over in
/// another order, the one at position `order[k]` now at position `k`,
/// gives the converted entries in that same order.
pub proof fn lemma_list_order_preserved(list: Seq<ForeignFileSystemObject<'_>>, order: Seq<int>)
    requires
        forall|k: int| 0 <= k < order.len() ==> 0 <= #[trigger] order[k] < list.len(),
    ensures
        converted_list(Seq::new(order.len(), |k: int| list[order[k]])) == Seq::new(
            order.len(),
            |k: int| converted_list(list)[order[k]],
        ),
{
    assert(converted_list(Seq::new(order.len(), |k: int| list[order[k]])) =~= Seq::new(
        order.len(),
        |k: int| converted_list(list)[order[k]],
    ));
}

} // verus!
