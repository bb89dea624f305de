use chunk_reconciler::algorithm::GenericFileReconciliationAlgorithm;
use chunk_reconciler::entities::{
    AppError, AppErrorKind, ComparisonPair, FileChunkQueue, FileUploadChunk, FileUploadChunkRow,
    FileUploadChunkSource, ReconStatus, ReconciliationConfigs,
};
use chunk_reconciler::pipeline::{
    FileChunkReconciliationService, QueueAction, QueueEvent, ReconcileFileChunkRequest,
    ReconciliationSession,
};

fn setup_service() -> FileChunkReconciliationService {
    FileChunkReconciliationService {
        file_reconciliation_algorithm: GenericFileReconciliationAlgorithm {},
    }
}

fn default_recon_configs() -> ReconciliationConfigs {
    ReconciliationConfigs {
        should_check_for_duplicate_records_in_comparison_file: true,
        should_reconciliation_be_case_sensitive: true,
        should_ignore_white_space: true,
        should_do_reverse_reconciliation: true,
    }
}

fn new_same_column_index_comparison_pair(column_index: usize) -> ComparisonPair {
    ComparisonPair {
        primary_file_column_index: column_index,
        comparison_file_column_index: column_index,
        is_row_identifier: true,
    }
}

fn file_chunk(id: &str) -> FileUploadChunk {
    FileUploadChunk {
        id: String::from(id),
        upload_request_id: String::from("file-1234"),
        chunk_sequence_number: 1,
        chunk_source: FileUploadChunkSource::ComparisonFileChunk,
        chunk_rows: vec![],
        date_created: chrono::Utc::now().timestamp(),
        date_modified: chrono::Utc::now().timestamp(),
        comparison_pairs: vec![new_same_column_index_comparison_pair(0)],
        column_headers: vec![String::from("ID")],
        recon_config: default_recon_configs(),
        primary_file_chunks_queue: FileChunkQueue {
            topic_id: String::from("src-file-chunks-queue-1"),
            last_acknowledged_id: Option::None,
        },
        comparison_file_chunks_queue: FileChunkQueue {
            topic_id: String::from("cmp-file-chunks-queue-1"),
            last_acknowledged_id: Option::None,
        },
        result_chunks_queue: FileChunkQueue {
            topic_id: String::from("results-file-chunks-queue-1"),
            last_acknowledged_id: Option::None,
        },
        is_last_chunk: false,
    }
}

fn get_dummy_valid_request() -> ReconcileFileChunkRequest {
    ReconcileFileChunkRequest { primary_file_chunk: file_chunk("src-file-1234") }
}

fn dummy_comparison_file() -> FileUploadChunk {
    file_chunk("cmp-file-1234")
}

fn row(row_number: u64, line: &str) -> FileUploadChunkRow {
    FileUploadChunkRow {
        row_number,
        raw_data: line.to_string(),
        parsed_columns_from_row: line.split(',').map(|s| s.to_string()).collect(),
        recon_result: ReconStatus::Pending,
        recon_result_reasons: vec![],
    }
}

fn start(
    sut: &FileChunkReconciliationService,
    request: ReconcileFileChunkRequest,
) -> ReconciliationSession {
    let (session, action) = sut.reconcile_file_chunk(request);
    match action {
        QueueAction::FetchNextComparisonChunk(cursor) => {
            assert_eq!(cursor.topic_id, "cmp-file-chunks-queue-1");
            assert_eq!(cursor.last_acknowledged_id, None);
        },
        _ => panic!("expected a fetch of the next comparison chunk"),
    }
    session
}

fn fetched(
    sut: &FileChunkReconciliationService,
    session: ReconciliationSession,
    comparison: FileUploadChunk,
) -> ReconciliationSession {
    let (session, action) = sut.on_queue_event(session, QueueEvent::ComparisonChunkFetched(comparison));
    match action {
        QueueAction::MarkComparisonChunkAsProcessed(c) => assert_eq!(c.id, "cmp-file-1234"),
        _ => panic!("expected the comparison chunk to be marked"),
    }
    session
}

fn expect_error(action: QueueAction, kind: AppErrorKind) {
    match action {
        QueueAction::Respond(Err(e)) => assert_eq!(e.kind, kind),
        _ => panic!("expected an error response"),
    }
}

#[test]
fn given_valid_request_calls_correct_dependencies() {
    let sut = setup_service();
    let session = start(&sut, get_dummy_valid_request());
    let session = fetched(&sut, session, dummy_comparison_file());

    let (session, action) = sut.on_queue_event(session, QueueEvent::ComparisonChunkMarked(true));
    match action {
        QueueAction::InsertIntoPrimaryQueue(chunk) => {
            assert_eq!(chunk.id, "src-file-1234");
            assert_eq!(
                chunk.comparison_file_chunks_queue.last_acknowledged_id,
                Some(String::from("cmp-file-1234"))
            );
        },
        _ => panic!("expected the chunk to go back to the primary queue"),
    }

    let (session, action) = sut.on_queue_event(session, QueueEvent::ChunkInserted(true));
    assert!(matches!(session, ReconciliationSession::Finished));
    match action {
        QueueAction::Respond(Ok(response)) => assert_eq!(response.file_chunk_id, "src-file-1234"),
        _ => panic!("expected a success response"),
    }
}

#[test]
fn given_valid_request_and_last_comparison_file_chunk_calls_correct_dependencies() {
    let sut = setup_service();
    let session = start(&sut, get_dummy_valid_request());
    let mut comparison_file_chunk = dummy_comparison_file();
    comparison_file_chunk.is_last_chunk = true;
    let session = fetched(&sut, session, comparison_file_chunk);

    let (session, action) = sut.on_queue_event(session, QueueEvent::ComparisonChunkMarked(true));
    match action {
        QueueAction::InsertIntoResultsQueue(chunk) => {
            assert_eq!(chunk.id, "src-file-1234");
            assert_eq!(
                chunk.comparison_file_chunks_queue.last_acknowledged_id,
                Some(String::from("cmp-file-1234"))
            );
        },
        _ => panic!("expected the chunk to go to the results queue"),
    }

    let (_, action) = sut.on_queue_event(session, QueueEvent::ChunkInserted(true));
    match action {
        QueueAction::Respond(Ok(response)) => assert_eq!(response.file_chunk_id, "src-file-1234"),
        _ => panic!("expected a success response"),
    }
}

#[test]
fn given_invalid_request_returns_error() {
    let sut = setup_service();
    let mut request = get_dummy_valid_request();
    request.primary_file_chunk.comparison_pairs[0].is_row_identifier = false;

    let (session, action) = sut.reconcile_file_chunk(request);

    assert!(matches!(session, ReconciliationSession::Finished));
    expect_error(action, AppErrorKind::BadClientRequest);
}

#[test]
fn given_valid_request_but_call_to_dependency_fails_returns_error() {
    let sut = setup_service();
    let session = start(&sut, get_dummy_valid_request());

    let (session, action) = sut.on_queue_event(
        session,
        QueueEvent::GatewayFailed(AppError::new(
            AppErrorKind::ConnectionError,
            "unable to connect".to_string(),
        )),
    );

    assert!(matches!(session, ReconciliationSession::Finished));
    match action {
        QueueAction::Respond(Err(e)) => {
            assert_eq!(e.kind, AppErrorKind::ConnectionError);
            assert_eq!(e.message, "unable to connect");
        },
        _ => panic!("expected an error response"),
    }
}

#[test]
fn pair_outside_the_headers_is_a_client_error() {
    let sut = setup_service();
    let mut request = get_dummy_valid_request();
    request.primary_file_chunk.comparison_pairs.push(ComparisonPair {
        primary_file_column_index: 1,
        comparison_file_column_index: 1,
        is_row_identifier: false,
    });
    let (session, action) = sut.reconcile_file_chunk(request);
    assert!(matches!(session, ReconciliationSession::Finished));
    expect_error(action, AppErrorKind::BadClientRequest);
}

#[test]
fn pair_outside_a_row_is_a_client_error() {
    let sut = setup_service();
    let mut request = get_dummy_valid_request();
    request.primary_file_chunk.column_headers.push(String::from("name"));
    request.primary_file_chunk.chunk_rows = vec![row(1, "1,a"), row(2, "2")];
    request.primary_file_chunk.comparison_pairs.push(ComparisonPair {
        primary_file_column_index: 1,
        comparison_file_column_index: 1,
        is_row_identifier: false,
    });
    let (_, action) = sut.reconcile_file_chunk(request);
    expect_error(action, AppErrorKind::BadClientRequest);
}

#[test]
fn validate_request_accepts_identifier_and_value_pairs() {
    let mut request = get_dummy_valid_request();
    request.primary_file_chunk.column_headers.push(String::from("name"));
    request.primary_file_chunk.chunk_rows = vec![row(1, "1,a"), row(2, "2,b,extra")];
    request.primary_file_chunk.comparison_pairs.push(ComparisonPair {
        primary_file_column_index: 1,
        comparison_file_column_index: 7,
        is_row_identifier: false,
    });
    assert!(FileChunkReconciliationService::validate_request(&request).is_ok());
    request.primary_file_chunk.comparison_pairs.remove(0);
    let e = FileChunkReconciliationService::validate_request(&request).unwrap_err();
    assert_eq!(e.kind, AppErrorKind::BadClientRequest);
}

#[test]
fn failed_acknowledgement_is_an_internal_error() {
    let sut = setup_service();
    let session = start(&sut, get_dummy_valid_request());
    let session = fetched(&sut, session, dummy_comparison_file());
    let (session, action) = sut.on_queue_event(session, QueueEvent::ComparisonChunkMarked(false));
    assert!(matches!(session, ReconciliationSession::Finished));
    expect_error(action, AppErrorKind::InternalError);
}

#[test]
fn failed_insert_is_an_internal_error() {
    let sut = setup_service();
    for &last in &[false, true] {
        let session = start(&sut, get_dummy_valid_request());
        let mut comparison = dummy_comparison_file();
        comparison.is_last_chunk = last;
        let session = fetched(&sut, session, comparison);
        let (session, _) = sut.on_queue_event(session, QueueEvent::ComparisonChunkMarked(true));
        let (_, action) = sut.on_queue_event(session, QueueEvent::ChunkInserted(false));
        expect_error(action, AppErrorKind::InternalError);
    }
}

#[test]
fn unexpected_event_is_an_internal_error() {
    let sut = setup_service();
    let session = start(&sut, get_dummy_valid_request());
    let (session, action) = sut.on_queue_event(session, QueueEvent::ChunkInserted(true));
    assert!(matches!(session, ReconciliationSession::Finished));
    expect_error(action, AppErrorKind::InternalError);
    let (_, action) = sut.on_queue_event(session, QueueEvent::ComparisonChunkMarked(true));
    expect_error(action, AppErrorKind::InternalError);
}

#[test]
fn fetched_chunk_is_reconciled_before_routing() {
    let sut = setup_service();
    let mut request = get_dummy_valid_request();
    request.primary_file_chunk.column_headers.push(String::from("value"));
    request.primary_file_chunk.chunk_rows = vec![row(1, "1,a"), row(2, "2,b")];
    request.primary_file_chunk.comparison_pairs.push(ComparisonPair {
        primary_file_column_index: 1,
        comparison_file_column_index: 1,
        is_row_identifier: false,
    });
    let session = start(&sut, request);
    let mut comparison = dummy_comparison_file();
    comparison.chunk_rows = vec![row(1, "1,a"), row(2, "2,c")];
    let session = fetched(&sut, session, comparison);
    let (_, action) = sut.on_queue_event(session, QueueEvent::ComparisonChunkMarked(true));
    match action {
        QueueAction::InsertIntoPrimaryQueue(chunk) => {
            assert_eq!(chunk.chunk_rows[0].recon_result, ReconStatus::Successful);
            assert_eq!(chunk.chunk_rows[1].recon_result, ReconStatus::Failed);
        },
        _ => panic!("expected the chunk to go back to the primary queue"),
    }
}
