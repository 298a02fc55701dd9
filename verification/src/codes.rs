//! The closed enumerations of the protocol and their stable integer mapping.

use vstd::prelude::*;

use crate::error::ProtocolError;

verus! {

/// Outcome carried by every response. `Nil` is the only success value.
#[derive(Copy, Clone, PartialEq, Eq, Debug, Structural)]
pub enum TdpErrCode {
    /// No error: the operation succeeded.
    Nil,
    /// The operation failed.
    Failed,
    /// The resource does not exist.
    DoesNotExist,
    /// The resource already exists.
    AlreadyExists,
}

/// Kind of a file system entry.
#[derive(Copy, Clone, PartialEq, Eq, Debug, Structural)]
pub enum FileType {
    File,
    Directory,
}

impl TdpErrCode {
    /// The integer that stands for this code on the boundary:
    /// `Nil` is 0, `Failed` 1, `DoesNotExist` 2 and `AlreadyExists` 3.
    pub open spec fn spec_code(self) -> u32 {
        match self {
            TdpErrCode::Nil => 0,
            TdpErrCode::Failed => 1,
            TdpErrCode::DoesNotExist => 2,
            TdpErrCode::AlreadyExists => 3,
        }
    }

    /// What the integer `code` decodes to: the error code it stands for, or
    /// `InvalidErrCode` for an integer that stands for none.
    pub open spec fn spec_from_code(code: u32) -> Result<TdpErrCode, ProtocolError> {
        if code == 0 {
            Ok(TdpErrCode::Nil)
        } else if code == 1 {
            Ok(TdpErrCode::Failed)
        } else if code == 2 {
            Ok(TdpErrCode::DoesNotExist)
        } else if code == 3 {
            Ok(TdpErrCode::AlreadyExists)
        } else {
            Err(ProtocolError::InvalidErrCode { code })
        }
    }

    /// Whether this code reports success.
    pub open spec fn spec_is_nil(self) -> bool {
        self == TdpErrCode::Nil
    }

    /// The integer that stands for this code.
    pub fn code(self) -> (code: u32)
        ensures
            code == self.spec_code(),
    {
        match self {
            TdpErrCode::Nil => 0,
            TdpErrCode::Failed => 1,
            TdpErrCode::DoesNotExist => 2,
            TdpErrCode::AlreadyExists => 3,
        }
    }

    /// Decodes an integer, rejecting every value that stands for no code.
    pub fn from_code(code: u32) -> (res: Result<TdpErrCode, ProtocolError>)
        ensures
            res == TdpErrCode::spec_from_code(code),
    {
        if code == 0 {
            Ok(TdpErrCode::Nil)
        } else if code == 1 {
            Ok(TdpErrCode::Failed)
        } else if code == 2 {
            Ok(TdpErrCode::DoesNotExist)
        } else if code == 3 {
            Ok(TdpErrCode::AlreadyExists)
        } else {
            Err(ProtocolError::InvalidErrCode { code })
        }
    }

    /// Whether this code reports success.
    #[verifier::when_used_as_spec(spec_is_nil)]
    pub fn is_nil(self) -> (nil: bool)
        ensures
            nil == self.spec_is_nil(),
    {
        self == TdpErrCode::Nil
    }

    /// Decoding the integer of a code gives the code back, and an integer
    /// decodes exactly when some code maps to it.
    pub proof fn lemma_code_round_trip(self, code: u32)
        ensures
            TdpErrCode::spec_from_code(self.spec_code()) == Ok::<TdpErrCode, ProtocolError>(self),
            TdpErrCode::spec_from_code(code) is Ok <==> code <= 3,
            TdpErrCode::spec_from_code(code) matches Ok(c) ==> c.spec_code() == code,
    {
    }
}

impl FileType {
    /// The integer that stands for this type on the boundary:
    /// `File` is 0 and `Directory` is 1.
    pub open spec fn spec_code(self) -> u32 {
        match self {
            FileType::File => 0,
            FileType::Directory => 1,
        }
    }

    /// What the integer `code` decodes to: the file type it stands for, or
    /// `InvalidFileType` for an integer that stands for none.
    pub open spec fn spec_from_code(code: u32) -> Result<FileType, ProtocolError> {
        if code == 0 {
            Ok(FileType::File)
        } else if code == 1 {
            Ok(FileType::Directory)
        } else {
            Err(ProtocolError::InvalidFileType { code })
        }
    }

    /// The integer that stands for this type.
    pub fn code(self) -> (code: u32)
        ensures
            code == self.spec_code(),
    {
        match self {
            FileType::File => 0,
            FileType::Directory => 1,
        }
    }

    /// Decodes an integer, rejecting every value that stands for no type.
    pub fn from_code(code: u32) -> (res: Result<FileType, ProtocolError>)
        ensures
            res == FileType::spec_from_code(code),
    {
        if code == 0 {
            Ok(FileType::File)
        } else if code == 1 {
            Ok(FileType::Directory)
        } else {
            Err(ProtocolError::InvalidFileType { code })
        }
    }

    /// Decoding the integer of a type gives the type back, and an integer
    /// decodes exactly when some type maps to it.
    pub proof fn lemma_code_round_trip(self, code: u32)
        ensures
            FileType::spec_from_code(self.spec_code()) == Ok::<FileType, ProtocolError>(self),
            FileType::spec_from_code(code) is Ok <==> code <= 1,
            FileType::spec_from_code(code) matches Ok(t) ==> t.spec_code() == code,
    {
    }
}

} // verus!
