use shared_directory::{
    Correlator, DirectoryState, Expectation, FileSystemObject, FileType, OperationKind,
    ProtocolError, Request, Response, SharedDirectoryAcknowledge, SharedDirectoryAnnounce,
    SharedDirectoryDeleteRequest, SharedDirectoryDeleteResponse, SharedDirectoryInfoRequest,
    SharedDirectoryInfoResponse, SharedDirectoryListRequest, SharedDirectoryListResponse,
    SharedDirectoryReadRequest, SharedDirectoryReadResponse, SharedDirectoryWriteRequest,
    SharedDirectoryWriteResponse, TdpErrCode, UnixPath,
};

fn announce(directory_id: u32, name: &str) -> SharedDirectoryAnnounce {
    SharedDirectoryAnnounce::new(directory_id, name.to_string())
}

fn acknowledge(directory_id: u32, err_code: TdpErrCode) -> SharedDirectoryAcknowledge {
    SharedDirectoryAcknowledge { err_code, directory_id }
}

fn ready(directory_id: u32) -> Correlator<&'static str> {
    let mut correlator = Correlator::new();
    assert_eq!(correlator.announce(&announce(directory_id, "docs")), Ok(()));
    assert_eq!(correlator.acknowledge(&acknowledge(directory_id, TdpErrCode::Nil)), Ok(()));
    correlator
}

fn list_request(completion_id: u32, directory_id: u32) -> Request {
    Request::List(SharedDirectoryListRequest {
        completion_id,
        directory_id,
        path: UnixPath::new("/"),
    })
}

fn delete_response(completion_id: u32) -> Response {
    Response::Delete(SharedDirectoryDeleteResponse { completion_id, err_code: TdpErrCode::Nil })
}

fn write_of(completion_id: u32, payload: usize) -> Request {
    Request::Write(SharedDirectoryWriteRequest {
        completion_id,
        directory_id: 1,
        offset: 0,
        path: UnixPath::new("/f"),
        write_data: vec![7u8; payload],
    })
}

fn written(completion_id: u32, err_code: TdpErrCode, bytes_written: u32) -> Response {
    Response::Write(SharedDirectoryWriteResponse { completion_id, err_code, bytes_written })
}

#[test]
fn announce_acknowledge_list_end_to_end() {
    let mut correlator: Correlator<&'static str> = Correlator::new();
    assert_eq!(correlator.announce(&announce(1, "docs")), Ok(()));
    assert_eq!(correlator.directory_state(1), Some(DirectoryState::Announced));
    assert_eq!(
        correlator.acknowledge(&SharedDirectoryAcknowledge {
            err_code: TdpErrCode::Nil,
            directory_id: 1,
        }),
        Ok(())
    );
    assert_eq!(correlator.directory_state(1), Some(DirectoryState::Acknowledged(TdpErrCode::Nil)));
    assert!(correlator.is_ready(1));

    let request = Request::List(SharedDirectoryListRequest {
        completion_id: 7,
        directory_id: 1,
        path: UnixPath::new("/"),
    });
    assert_eq!(correlator.register(&request, "caller"), Ok(()));
    assert!(correlator.is_pending(7));
    assert_eq!(correlator.pending_count(), 1);

    let entry = FileSystemObject {
        last_modified: 0,
        size: 10,
        file_type: FileType::File,
        is_empty: 0,
        path: UnixPath::new("/a.txt"),
    };
    let response = Response::List(SharedDirectoryListResponse {
        completion_id: 7,
        err_code: TdpErrCode::Nil,
        fso_list: vec![entry.clone()],
    });
    let delivery = correlator.resolve(response).unwrap();
    assert_eq!(delivery.target, "caller");
    assert_eq!(delivery.expectation.completion_id, 7);
    assert_eq!(delivery.expectation.directory_id, 1);
    assert_eq!(delivery.expectation.kind, OperationKind::List);
    match delivery.response {
        Response::List(list) => {
            assert_eq!(list.completion_id, 7);
            assert_eq!(list.err_code, TdpErrCode::Nil);
            assert_eq!(list.fso_list, vec![entry]);
            assert_eq!(list.fso_list[0].name(), Ok("a.txt".to_string()));
        }
        other => panic!("unexpected response: {:?}", other),
    }
    assert!(!correlator.is_pending(7));
    assert_eq!(correlator.pending_count(), 0);
}

#[test]
fn new_correlator_is_empty() {
    let correlator: Correlator<u8> = Correlator::new();
    assert_eq!(correlator.pending_count(), 0);
    assert_eq!(correlator.directory_state(1), None);
    assert!(!correlator.is_ready(1));
    assert!(!correlator.is_pending(0));
    assert_eq!(correlator.expectation(0), None);
}

#[test]
fn directory_id_in_use_is_rejected() {
    let mut correlator: Correlator<u8> = Correlator::new();
    assert_eq!(correlator.announce(&announce(1, "docs")), Ok(()));
    assert_eq!(
        correlator.announce(&announce(1, "other")),
        Err(ProtocolError::DuplicateDirectory { directory_id: 1 })
    );
    assert_eq!(correlator.directory_state(1), Some(DirectoryState::Announced));
    assert_eq!(correlator.announce(&announce(2, "other")), Ok(()));
}

#[test]
fn directory_id_stays_in_use_after_acknowledgement() {
    let mut correlator: Correlator<u8> = Correlator::new();
    assert_eq!(correlator.announce(&announce(1, "a")), Ok(()));
    assert_eq!(correlator.announce(&announce(2, "b")), Ok(()));
    assert_eq!(correlator.acknowledge(&acknowledge(1, TdpErrCode::Nil)), Ok(()));
    assert_eq!(correlator.acknowledge(&acknowledge(2, TdpErrCode::Failed)), Ok(()));
    assert_eq!(
        correlator.announce(&announce(1, "a")),
        Err(ProtocolError::DuplicateDirectory { directory_id: 1 })
    );
    assert_eq!(
        correlator.announce(&announce(2, "b")),
        Err(ProtocolError::DuplicateDirectory { directory_id: 2 })
    );
}

#[test]
fn acknowledgement_of_an_unknown_directory_is_rejected() {
    let mut correlator: Correlator<u8> = Correlator::new();
    assert_eq!(
        correlator.acknowledge(&acknowledge(5, TdpErrCode::Nil)),
        Err(ProtocolError::UnexpectedAcknowledge { directory_id: 5 })
    );
    assert_eq!(correlator.directory_state(5), None);
}

#[test]
fn second_acknowledgement_is_rejected() {
    let mut correlator: Correlator<u8> = Correlator::new();
    assert_eq!(correlator.announce(&announce(1, "docs")), Ok(()));
    assert_eq!(correlator.acknowledge(&acknowledge(1, TdpErrCode::Failed)), Ok(()));
    assert_eq!(
        correlator.acknowledge(&acknowledge(1, TdpErrCode::Nil)),
        Err(ProtocolError::UnexpectedAcknowledge { directory_id: 1 })
    );
    assert_eq!(
        correlator.directory_state(1),
        Some(DirectoryState::Acknowledged(TdpErrCode::Failed))
    );
    assert!(!correlator.is_ready(1));
}

#[test]
fn failed_acknowledgement_keeps_the_directory_closed() {
    let mut correlator: Correlator<u8> = Correlator::new();
    assert_eq!(correlator.announce(&announce(1, "docs")), Ok(()));
    assert_eq!(correlator.acknowledge(&acknowledge(1, TdpErrCode::AlreadyExists)), Ok(()));
    assert_eq!(
        correlator.directory_state(1),
        Some(DirectoryState::Acknowledged(TdpErrCode::AlreadyExists))
    );
    assert_eq!(
        correlator.register(&list_request(1, 1), 0),
        Err(ProtocolError::DirectoryNotReady { directory_id: 1 })
    );
    assert_eq!(correlator.pending_count(), 0);
}

#[test]
fn request_against_an_unknown_directory_is_rejected() {
    let mut correlator: Correlator<u8> = Correlator::new();
    assert_eq!(
        correlator.register(&list_request(1, 9), 0),
        Err(ProtocolError::DirectoryNotReady { directory_id: 9 })
    );
    assert!(!correlator.is_pending(1));
}

#[test]
fn request_against_an_unacknowledged_directory_is_rejected() {
    let mut correlator: Correlator<u8> = Correlator::new();
    assert_eq!(correlator.announce(&announce(1, "docs")), Ok(()));
    assert_eq!(
        correlator.register(&list_request(1, 1), 0),
        Err(ProtocolError::DirectoryNotReady { directory_id: 1 })
    );
    assert_eq!(correlator.acknowledge(&acknowledge(1, TdpErrCode::Nil)), Ok(()));
    assert_eq!(correlator.register(&list_request(1, 1), 0), Ok(()));
}

#[test]
fn directory_state_predicate() {
    assert!(DirectoryState::Acknowledged(TdpErrCode::Nil).is_ready());
    assert!(!DirectoryState::Acknowledged(TdpErrCode::Failed).is_ready());
    assert!(!DirectoryState::Acknowledged(TdpErrCode::DoesNotExist).is_ready());
    assert!(!DirectoryState::Announced.is_ready());
}

#[test]
fn reused_completion_id_is_rejected_while_pending() {
    let mut correlator = ready(1);
    assert_eq!(correlator.register(&list_request(7, 1), "first"), Ok(()));
    assert_eq!(
        correlator.register(&list_request(7, 1), "second"),
        Err(ProtocolError::DuplicateCompletionId { completion_id: 7 })
    );
    let other_kind = Request::Info(SharedDirectoryInfoRequest {
        completion_id: 7,
        directory_id: 1,
        path: UnixPath::new("/a"),
    });
    assert_eq!(
        correlator.register(&other_kind, "third"),
        Err(ProtocolError::DuplicateCompletionId { completion_id: 7 })
    );
    assert_eq!(correlator.pending_count(), 1);
    let delivery = correlator
        .resolve(Response::List(SharedDirectoryListResponse {
            completion_id: 7,
            err_code: TdpErrCode::Nil,
            fso_list: vec![],
        }))
        .unwrap();
    assert_eq!(delivery.target, "first");
}

#[test]
fn completion_id_is_unique_across_directories() {
    let mut correlator = ready(1);
    assert_eq!(correlator.announce(&announce(2, "more")), Ok(()));
    assert_eq!(correlator.acknowledge(&acknowledge(2, TdpErrCode::Nil)), Ok(()));
    assert_eq!(correlator.register(&list_request(7, 1), "first"), Ok(()));
    assert_eq!(
        correlator.register(&list_request(7, 2), "second"),
        Err(ProtocolError::DuplicateCompletionId { completion_id: 7 })
    );
}

#[test]
fn completion_id_can_be_used_again_after_resolution() {
    let mut correlator = ready(1);
    let delete = Request::Delete(SharedDirectoryDeleteRequest {
        completion_id: 3,
        directory_id: 1,
        path: UnixPath::new("/x"),
    });
    assert_eq!(correlator.register(&delete, "first"), Ok(()));
    assert_eq!(correlator.resolve(delete_response(3)).unwrap().target, "first");
    assert_eq!(correlator.register(&delete, "again"), Ok(()));
    assert_eq!(correlator.resolve(delete_response(3)).unwrap().target, "again");
}

#[test]
fn directory_is_looked_at_before_the_completion_id() {
    let mut correlator = ready(1);
    assert_eq!(correlator.register(&list_request(7, 1), "first"), Ok(()));
    assert_eq!(
        correlator.register(&list_request(7, 2), "second"),
        Err(ProtocolError::DirectoryNotReady { directory_id: 2 })
    );
}

#[test]
fn response_with_unknown_completion_id_is_reported() {
    let mut correlator = ready(1);
    assert_eq!(correlator.register(&list_request(7, 1), "caller"), Ok(()));
    let err = correlator.resolve(delete_response(8)).unwrap_err();
    assert_eq!(err, ProtocolError::UnknownCompletionId { completion_id: 8 });
    assert!(correlator.is_pending(7));
    assert_eq!(correlator.pending_count(), 1);
}

#[test]
fn response_to_nothing_is_reported() {
    let mut correlator: Correlator<u8> = Correlator::new();
    let err = correlator.resolve(delete_response(0)).unwrap_err();
    assert_eq!(err, ProtocolError::UnknownCompletionId { completion_id: 0 });
}

#[test]
fn second_response_with_the_same_completion_id_is_reported() {
    let mut correlator = ready(1);
    let delete = Request::Delete(SharedDirectoryDeleteRequest {
        completion_id: 3,
        directory_id: 1,
        path: UnixPath::new("/x"),
    });
    assert_eq!(correlator.register(&delete, "caller"), Ok(()));
    assert!(correlator.resolve(delete_response(3)).is_ok());
    let err = correlator.resolve(delete_response(3)).unwrap_err();
    assert_eq!(err, ProtocolError::UnknownCompletionId { completion_id: 3 });
}

#[test]
fn response_of_another_type_is_reported() {
    let mut correlator = ready(1);
    assert_eq!(correlator.register(&list_request(7, 1), "caller"), Ok(()));
    let err = correlator.resolve(delete_response(7)).unwrap_err();
    assert_eq!(err, ProtocolError::UnexpectedResponseType { completion_id: 7 });
    assert!(correlator.is_pending(7));
    let delivery = correlator
        .resolve(Response::List(SharedDirectoryListResponse {
            completion_id: 7,
            err_code: TdpErrCode::Failed,
            fso_list: vec![],
        }))
        .unwrap();
    assert_eq!(delivery.target, "caller");
    assert_eq!(delivery.response.err_code(), TdpErrCode::Failed);
}

#[test]
fn partial_write_is_delivered() {
    let mut correlator = ready(1);
    assert_eq!(correlator.register(&write_of(4, 100), "writer"), Ok(()));
    assert_eq!(
        correlator.expectation(4),
        Some(Expectation {
            completion_id: 4,
            directory_id: 1,
            kind: OperationKind::Write,
            byte_limit: 100,
        })
    );
    let delivery = correlator.resolve(written(4, TdpErrCode::Nil, 60)).unwrap();
    assert_eq!(delivery.target, "writer");
    assert_eq!(delivery.expectation.byte_limit, 100);
    assert_eq!(
        delivery.response,
        Response::Write(SharedDirectoryWriteResponse {
            completion_id: 4,
            err_code: TdpErrCode::Nil,
            bytes_written: 60,
        })
    );
}

#[test]
fn full_write_is_delivered() {
    let mut correlator = ready(1);
    assert_eq!(correlator.register(&write_of(4, 100), "writer"), Ok(()));
    let delivery = correlator.resolve(written(4, TdpErrCode::Nil, 100)).unwrap();
    assert_eq!(delivery.response.byte_count(), 100);
}

#[test]
fn write_beyond_the_payload_is_reported() {
    let mut correlator = ready(1);
    assert_eq!(correlator.register(&write_of(4, 100), "writer"), Ok(()));
    let err = correlator.resolve(written(4, TdpErrCode::Nil, 101)).unwrap_err();
    assert_eq!(err, ProtocolError::LengthExceeded { completion_id: 4 });
    assert!(correlator.is_pending(4));
}

#[test]
fn failed_write_is_delivered_with_its_code() {
    let mut correlator = ready(1);
    assert_eq!(correlator.register(&write_of(4, 100), "writer"), Ok(()));
    let delivery = correlator.resolve(written(4, TdpErrCode::Failed, 0)).unwrap();
    assert_eq!(delivery.response.err_code(), TdpErrCode::Failed);
}

#[test]
fn short_read_is_delivered() {
    let mut correlator = ready(1);
    let read = Request::Read(SharedDirectoryReadRequest {
        completion_id: 6,
        directory_id: 1,
        path: UnixPath::new("/f"),
        offset: 90,
        length: 20,
    });
    assert_eq!(correlator.register(&read, "reader"), Ok(()));
    let delivery = correlator
        .resolve(Response::Read(SharedDirectoryReadResponse {
            completion_id: 6,
            err_code: TdpErrCode::Nil,
            read_data: vec![1; 10],
        }))
        .unwrap();
    assert_eq!(delivery.target, "reader");
    assert_eq!(delivery.response.byte_count(), 10);
}

#[test]
fn read_longer_than_asked_is_reported() {
    let mut correlator = ready(1);
    let read = Request::Read(SharedDirectoryReadRequest {
        completion_id: 6,
        directory_id: 1,
        path: UnixPath::new("/f"),
        offset: 0,
        length: 20,
    });
    assert_eq!(correlator.register(&read, "reader"), Ok(()));
    let err = correlator
        .resolve(Response::Read(SharedDirectoryReadResponse {
            completion_id: 6,
            err_code: TdpErrCode::Nil,
            read_data: vec![1; 21],
        }))
        .unwrap_err();
    assert_eq!(err, ProtocolError::LengthExceeded { completion_id: 6 });
    assert_eq!(correlator.pending_count(), 1);
}

#[test]
fn responses_may_arrive_in_any_order() {
    let mut correlator = ready(1);
    assert_eq!(correlator.register(&list_request(1, 1), "one"), Ok(()));
    assert_eq!(correlator.register(&list_request(2, 1), "two"), Ok(()));
    assert_eq!(correlator.register(&list_request(3, 1), "three"), Ok(()));
    assert_eq!(correlator.pending_count(), 3);
    for (completion_id, target) in [(2u32, "two"), (3, "three"), (1, "one")] {
        let delivery = correlator
            .resolve(Response::List(SharedDirectoryListResponse {
                completion_id,
                err_code: TdpErrCode::Nil,
                fso_list: vec![],
            }))
            .unwrap();
        assert_eq!(delivery.target, target);
        assert_eq!(delivery.expectation.completion_id, completion_id);
        assert_eq!(delivery.response.completion_id(), completion_id);
    }
    assert_eq!(correlator.pending_count(), 0);
}

#[test]
fn reply_to_a_registered_request_is_delivered() {
    let mut correlator = ready(1);
    let info = SharedDirectoryInfoRequest {
        completion_id: 21,
        directory_id: 1,
        path: UnixPath::new("/a.txt"),
    };
    let fso = FileSystemObject {
        last_modified: 3,
        size: 10,
        file_type: FileType::File,
        is_empty: 0,
        path: UnixPath::new("/a.txt"),
    };
    let reply = info.reply(TdpErrCode::Nil, fso.clone());
    assert_eq!(correlator.register(&Request::Info(info), "caller"), Ok(()));
    let delivery = correlator.resolve(Response::Info(reply)).unwrap();
    assert_eq!(delivery.expectation.completion_id, 21);
    assert_eq!(
        delivery.response,
        Response::Info(SharedDirectoryInfoResponse {
            completion_id: 21,
            err_code: TdpErrCode::Nil,
            fso,
        })
    );
}

#[test]
fn expectation_is_taken_from_the_request() {
    let request = write_of(4, 100);
    assert_eq!(
        Expectation::of(&request),
        Expectation {
            completion_id: 4,
            directory_id: 1,
            kind: OperationKind::Write,
            byte_limit: 100,
        }
    );
    let expectation = Expectation::of(&request);
    assert!(expectation.admits(&written(4, TdpErrCode::Nil, 60)));
    assert!(expectation.admits(&written(4, TdpErrCode::Nil, 100)));
    assert!(!expectation.admits(&written(4, TdpErrCode::Nil, 101)));
    assert!(!expectation.admits(&delete_response(4)));
}
