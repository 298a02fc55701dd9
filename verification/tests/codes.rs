use shared_directory::{FileType, ProtocolError, TdpErrCode};

#[test]
fn err_codes_map_to_their_integers() {
    assert_eq!(TdpErrCode::Nil.code(), 0);
    assert_eq!(TdpErrCode::Failed.code(), 1);
    assert_eq!(TdpErrCode::DoesNotExist.code(), 2);
    assert_eq!(TdpErrCode::AlreadyExists.code(), 3);
}

#[test]
fn err_codes_decode_from_their_integers() {
    assert_eq!(TdpErrCode::from_code(0), Ok(TdpErrCode::Nil));
    assert_eq!(TdpErrCode::from_code(1), Ok(TdpErrCode::Failed));
    assert_eq!(TdpErrCode::from_code(2), Ok(TdpErrCode::DoesNotExist));
    assert_eq!(TdpErrCode::from_code(3), Ok(TdpErrCode::AlreadyExists));
}

#[test]
fn unknown_err_code_is_rejected() {
    assert_eq!(TdpErrCode::from_code(4), Err(ProtocolError::InvalidErrCode { code: 4 }));
    assert_eq!(
        TdpErrCode::from_code(u32::MAX),
        Err(ProtocolError::InvalidErrCode { code: u32::MAX })
    );
}

#[test]
fn err_code_round_trip() {
    for code in [
        TdpErrCode::Nil,
        TdpErrCode::Failed,
        TdpErrCode::DoesNotExist,
        TdpErrCode::AlreadyExists,
    ] {
        assert_eq!(TdpErrCode::from_code(code.code()), Ok(code));
    }
    for n in 0..=3u32 {
        assert_eq!(TdpErrCode::from_code(n).unwrap().code(), n);
    }
}

#[test]
fn only_nil_is_success() {
    assert!(TdpErrCode::Nil.is_nil());
    assert!(!TdpErrCode::Failed.is_nil());
    assert!(!TdpErrCode::DoesNotExist.is_nil());
    assert!(!TdpErrCode::AlreadyExists.is_nil());
}

#[test]
fn file_types_map_to_their_integers() {
    assert_eq!(FileType::File.code(), 0);
    assert_eq!(FileType::Directory.code(), 1);
    assert_eq!(FileType::from_code(0), Ok(FileType::File));
    assert_eq!(FileType::from_code(1), Ok(FileType::Directory));
}

#[test]
fn unknown_file_type_is_rejected() {
    assert_eq!(FileType::from_code(2), Err(ProtocolError::InvalidFileType { code: 2 }));
    assert_eq!(FileType::from_code(255), Err(ProtocolError::InvalidFileType { code: 255 }));
}

#[test]
fn file_type_round_trip() {
    for t in [FileType::File, FileType::Directory] {
        assert_eq!(FileType::from_code(t.code()), Ok(t));
    }
}
