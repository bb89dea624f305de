//! One reconciliation step of a primary chunk, as a session that reacts to
//! queue events.
//!
//! The session never touches a queue itself. Each call returns the next
//! queue action; whoever runs the session performs it and hands back what
//! came of it as the next event, until the action is a response.

use vstd::prelude::*;

use crate::algorithm::{
    reconciled_chunk, FileReconciliationAlgorithmInterface, GenericFileReconciliationAlgorithm,
};
use crate::entities::{
    identifier_pairs, AppError, AppErrorKind, ChunkQueueView, FileChunkQueue,
    FileChunkView, FileUploadChunk,
};

verus! {

/// A request to reconcile one primary chunk against the next comparison
/// chunk.
#[derive(Clone, Debug)]
pub struct ReconcileFileChunkRequest {
    pub primary_file_chunk: FileUploadChunk,
}

/// The answer to a reconciliation request that went through.
#[derive(Clone, Debug)]
pub struct ReconcileFileChunkResponse {
    pub file_chunk_id: String,
}

/// Where a session stands.
pub enum ReconciliationSession {
    /// The next comparison chunk has been asked for.
    AwaitingComparisonChunk { primary_file_chunk: FileUploadChunk },
    /// The primary chunk is reconciled; the comparison chunk it was held
    /// against is being marked as processed.
    AwaitingAcknowledgement {
        primary_file_chunk: FileUploadChunk,
        comparison_chunk_id: String,
        comparison_is_last_chunk: bool,
    },
    /// The chunk is going back to the primary queue for the next comparison
    /// chunk.
    ReconciledContinuing { file_chunk_id: String },
    /// The chunk has met the last comparison chunk and is going to the
    /// results queue.
    ReconciledTerminal { file_chunk_id: String },
    /// A response has been given; nothing more happens.
    Finished,
}

/// What the session asks to be done next.
pub enum QueueAction {
    /// Read the next comparison chunk after this cursor.
    FetchNextComparisonChunk(FileChunkQueue),
    /// Mark this comparison chunk as processed.
    MarkComparisonChunkAsProcessed(FileUploadChunk),
    /// Put this chunk at the tail of its primary queue.
    InsertIntoPrimaryQueue(FileUploadChunk),
    /// Put this chunk into the results queue.
    InsertIntoResultsQueue(FileUploadChunk),
    /// The step is over: answer the caller with this.
    Respond(Result<ReconcileFileChunkResponse, AppError>),
}

/// What came of the last action.
pub enum QueueEvent {
    ComparisonChunkFetched(FileUploadChunk),
    ComparisonChunkMarked(bool),
    ChunkInserted(bool),
    GatewayFailed(AppError),
}

/// Column `index` exists in the headers and in every row of the chunk.
pub open spec fn column_exists(chunk: FileChunkView, index: usize) -> bool {
    &&& (index as int) < chunk.column_headers.len()
    &&& forall|i: int| 0 <= i < chunk.rows.len() ==> (index as int) < #[trigger] chunk.rows[i].columns.len()
}

/// A chunk can be reconciled: it has at least one identifier pair, and each
/// pair names a column of the chunk that exists in its headers and in every
/// one of its rows.
pub open spec fn chunk_is_reconcilable(chunk: FileChunkView) -> bool {
    &&& identifier_pairs(chunk.comparison_pairs).len() > 0
    &&& forall|k: int|
        0 <= k < chunk.comparison_pairs.len() ==> column_exists(
            chunk,
            #[trigger] chunk.comparison_pairs[k].primary_file_column_index,
        )
}

/// The chunk with its comparison cursor moved to `id`.
pub open spec fn with_comparison_cursor(chunk: FileChunkView, id: Seq<char>) -> FileChunkView {
    FileChunkView {
        comparison_file_chunks_queue: ChunkQueueView {
            last_acknowledged_id: Some(id),
            ..chunk.comparison_file_chunks_queue
        },
        ..chunk
    }
}

/// The id of the chunk that a session has routed to a queue, if it has.
pub open spec fn routed_chunk_id(session: ReconciliationSession) -> Option<Seq<char>> {
    match session {
        ReconciliationSession::ReconciledContinuing { file_chunk_id } => Some(file_chunk_id@),
        ReconciliationSession::ReconciledTerminal { file_chunk_id } => Some(file_chunk_id@),
        _ => None,
    }
}

/// The action answers with an error of this kind.
pub open spec fn responds_error(action: QueueAction, kind: AppErrorKind) -> bool {
    action matches QueueAction::Respond(Err(e)) && e.kind == kind
}

/// The action answers with success for the chunk `id`.
pub open spec fn responds_success(action: QueueAction, id: Seq<char>) -> bool {
    action matches QueueAction::Respond(Ok(resp)) && resp.file_chunk_id@ == id
}

/// What starting a step on `request` gives: a valid request asks for the
/// comparison chunk after the primary chunk's comparison cursor; an invalid
/// one is answered with a client error at once.
pub open spec fn session_start(request: ReconcileFileChunkRequest, r: (ReconciliationSession, QueueAction)) -> bool {
    &&& (chunk_is_reconcilable(request.primary_file_chunk@) ==> {
        &&& r.0 matches ReconciliationSession::AwaitingComparisonChunk {
            primary_file_chunk,
        } && primary_file_chunk@ == request.primary_file_chunk@
        &&& r.1 matches QueueAction::FetchNextComparisonChunk(cursor) && cursor@
            == request.primary_file_chunk@.comparison_file_chunks_queue
    })
    &&& (!chunk_is_reconcilable(request.primary_file_chunk@) ==> {
        &&& r.0 is Finished
        &&& responds_error(r.1, AppErrorKind::BadClientRequest)
    })
}

/// What one event does to a session (see `on_queue_event`).
pub open spec fn session_step(
    session: ReconciliationSession,
    event: QueueEvent,
    r: (ReconciliationSession, QueueAction),
) -> bool {
    &&& (event matches QueueEvent::GatewayFailed(e) ==> (!(session is Finished) ==> {
        &&& r.0 is Finished
        &&& r.1 matches QueueAction::Respond(Err(e2)) && e2 == e
    }))
    &&& (session is Finished ==> {
        &&& r.0 is Finished
        &&& responds_error(r.1, AppErrorKind::InternalError)
    })
    &&& (session matches ReconciliationSession::AwaitingComparisonChunk { primary_file_chunk: p }
        ==> {
        &&& event matches QueueEvent::ComparisonChunkFetched(c) ==> {
            &&& r.0 matches ReconciliationSession::AwaitingAcknowledgement {
                primary_file_chunk,
                comparison_chunk_id,
                comparison_is_last_chunk,
            } && primary_file_chunk@ == reconciled_chunk(p@, c@) && comparison_chunk_id@
                == c.id@ && comparison_is_last_chunk == c.is_last_chunk
            &&& r.1 matches QueueAction::MarkComparisonChunkAsProcessed(m) && m@ == c@
        }
        &&& (event is ComparisonChunkMarked || event is ChunkInserted) ==> {
            &&& r.0 is Finished
            &&& responds_error(r.1, AppErrorKind::InternalError)
        }
    })
    &&& (session matches ReconciliationSession::AwaitingAcknowledgement {
        primary_file_chunk: p,
        comparison_chunk_id: cid,
        comparison_is_last_chunk: last,
    } ==> {
        &&& event matches QueueEvent::ComparisonChunkMarked(marked) ==> {
            &&& marked && last ==> {
                &&& r.0 matches ReconciliationSession::ReconciledTerminal { file_chunk_id }
                    && file_chunk_id@ == p@.id
                &&& r.1 matches QueueAction::InsertIntoResultsQueue(chunk) && chunk@
                    == with_comparison_cursor(p@, cid@)
            }
            &&& marked && !last ==> {
                &&& r.0 matches ReconciliationSession::ReconciledContinuing {
                    file_chunk_id,
                } && file_chunk_id@ == p@.id
                &&& r.1 matches QueueAction::InsertIntoPrimaryQueue(chunk) && chunk@
                    == with_comparison_cursor(p@, cid@)
            }
            &&& !marked ==> {
                &&& r.0 is Finished
                &&& responds_error(r.1, AppErrorKind::InternalError)
            }
        }
        &&& (event is ComparisonChunkFetched || event is ChunkInserted) ==> {
            &&& r.0 is Finished
            &&& responds_error(r.1, AppErrorKind::InternalError)
        }
    })
    &&& (routed_chunk_id(session) matches Some(id) ==> {
        &&& r.0 is Finished
        &&& event matches QueueEvent::ChunkInserted(inserted) ==> {
            &&& inserted ==> responds_success(r.1, id)
            &&& !inserted ==> responds_error(r.1, AppErrorKind::InternalError)
        }
        &&& (event is ComparisonChunkFetched || event is ComparisonChunkMarked)
            ==> responds_error(r.1, AppErrorKind::InternalError)
    })
}

/// Whether column `index` exists in the headers and in every row of `chunk`.
fn column_exists_in(chunk: &FileUploadChunk, index: usize) -> (r: bool)
    ensures
        r == column_exists(chunk@, index),
{
    if index >= chunk.column_headers.len() {
        return false;
    }
    let mut i: usize = 0;
    while i < chunk.chunk_rows.len()
        invariant
            i <= chunk@.rows.len(),
            forall|j: int| 0 <= j < i ==> (index as int) < #[trigger] chunk@.rows[j].columns.len(),
        decreases chunk@.rows.len() - i,
    {
        assert(chunk@.rows[i as int] == chunk.chunk_rows@[i as int]@);
        if index >= chunk.chunk_rows[i].parsed_columns_from_row.len() {
            assert(chunk@.rows[i as int].columns.len()
                == chunk.chunk_rows@[i as int].parsed_columns_from_row@.len());
            return false;
        }
        i = i + 1;
    }
    true
}

/// The pipeline step: validates the request, folds the fetched comparison
/// chunk into the primary chunk, moves the comparison cursor and routes the
/// chunk to the primary queue or, after the last comparison chunk, to the
/// results queue.
pub struct FileChunkReconciliationService {
    pub file_reconciliation_algorithm: GenericFileReconciliationAlgorithm,
}

impl FileChunkReconciliationService {
    /// Checks a request: `Ok` exactly when its chunk can be reconciled, else
    /// a client error.
    pub fn validate_request(request: &ReconcileFileChunkRequest) -> (r: Result<(), AppError>)
        ensures
            r is Ok <==> chunk_is_reconcilable(request.primary_file_chunk@),
            r matches Err(e) ==> e.kind == AppErrorKind::BadClientRequest,
    {
        let id_pairs = request.primary_file_chunk.get_row_identifier_comparison_pairs();
        if id_pairs.len() == 0 {
            return Err(
                AppError::new(
                    AppErrorKind::BadClientRequest,
                    String::from_str("please supply at least one row identifier comparison pair"),
                ),
            );
        }
        let mut k: usize = 0;
        while k < request.primary_file_chunk.comparison_pairs.len()
            invariant
                k <= request.primary_file_chunk@.comparison_pairs.len(),
                forall|j: int|
                    0 <= j < k ==> column_exists(
                        request.primary_file_chunk@,
                        #[trigger] request.primary_file_chunk@.comparison_pairs[j].primary_file_column_index,
                    ),
            decreases request.primary_file_chunk@.comparison_pairs.len() - k,
        {
            let index = request.primary_file_chunk.comparison_pairs[k].primary_file_column_index;
            if !column_exists_in(&request.primary_file_chunk, index) {
                return Err(
                    AppError::new(
                        AppErrorKind::BadClientRequest,
                        String::from_str(
                            "every comparison pair must name a column present in the headers and in every row",
                        ),
                    ),
                );
            }
            k = k + 1;
        }
        Ok(())
    }

    /// Starts a step for `request`: a valid request asks for the comparison
    /// chunk after the primary chunk's comparison cursor; an invalid one is
    /// answered with a client error at once.
    pub fn reconcile_file_chunk(&self, request: ReconcileFileChunkRequest) -> (r: (
        ReconciliationSession,
        QueueAction,
    ))
        ensures
            session_start(request, r),
    {
        match Self::validate_request(&request) {
            Err(e) => (ReconciliationSession::Finished, QueueAction::Respond(Err(e))),
            Ok(()) => {
                let cursor = request.primary_file_chunk.comparison_file_chunks_queue.duplicate();
                (
                    ReconciliationSession::AwaitingComparisonChunk {
                        primary_file_chunk: request.primary_file_chunk,
                    },
                    QueueAction::FetchNextComparisonChunk(cursor),
                )
            },
        }
    }

    /// Advances a session by one event.
    ///
    /// A gateway failure is answered with that error. A fetched comparison
    /// chunk is folded into the primary chunk and then marked as processed.
    /// Once it is marked, the cursor moves to its id and the chunk goes to the
    /// results queue if it was the last comparison chunk, else back to the
    /// primary queue. A mark or insert that reports `false` is an internal
    /// error; an insert that succeeds is answered with the chunk's id. An
    /// event that the stage does not expect is an internal error.
    pub fn on_queue_event(&self, session: ReconciliationSession, event: QueueEvent) -> (r: (
        ReconciliationSession,
        QueueAction,
    ))
        ensures
            session_step(session, event, r),
    {
        match event {
            QueueEvent::GatewayFailed(e) => {
                match session {
                    ReconciliationSession::Finished => Self::unexpected_event(),
                    _ => (ReconciliationSession::Finished, QueueAction::Respond(Err(e))),
                }
            },
            QueueEvent::ComparisonChunkFetched(comparison_file_chunk) => {
                match session {
                    ReconciliationSession::AwaitingComparisonChunk { primary_file_chunk } => {
                        let mut primary_file_chunk = primary_file_chunk;
                        let _ = self.file_reconciliation_algorithm.reconcile_primary_file_chunk(
                            &mut primary_file_chunk,
                            &comparison_file_chunk,
                        );
                        let comparison_chunk_id = comparison_file_chunk.id.clone();
                        let comparison_is_last_chunk = comparison_file_chunk.is_last_chunk;
                        (
                            ReconciliationSession::AwaitingAcknowledgement {
                                primary_file_chunk,
                                comparison_chunk_id,
                                comparison_is_last_chunk,
                            },
                            QueueAction::MarkComparisonChunkAsProcessed(comparison_file_chunk),
                        )
                    },
                    _ => Self::unexpected_event(),
                }
            },
            QueueEvent::ComparisonChunkMarked(is_processed) => {
                match session {
                    ReconciliationSession::AwaitingAcknowledgement {
                        primary_file_chunk,
                        comparison_chunk_id,
                        comparison_is_last_chunk,
                    } => {
                        if !is_processed {
                            return Self::internal_error(
                                String::from_str(
                                    "failed to mark comparison file chunk as processed",
                                ),
                            );
                        }
                        let mut chunk = primary_file_chunk;
                        chunk.comparison_file_chunks_queue.last_acknowledged_id = Some(
                            comparison_chunk_id,
                        );
                        let file_chunk_id = chunk.id.clone();
                        if comparison_is_last_chunk {
                            (
                                ReconciliationSession::ReconciledTerminal { file_chunk_id },
                                QueueAction::InsertIntoResultsQueue(chunk),
                            )
                        } else {
                            (
                                ReconciliationSession::ReconciledContinuing { file_chunk_id },
                                QueueAction::InsertIntoPrimaryQueue(chunk),
                            )
                        }
                    },
                    _ => Self::unexpected_event(),
                }
            },
            QueueEvent::ChunkInserted(is_inserted) => {
                match session {
                    ReconciliationSession::ReconciledContinuing { file_chunk_id } => {
                        if is_inserted {
                            Self::respond_success(file_chunk_id)
                        } else {
                            Self::internal_error(
                                String::from_str(
                                    "failed to insert primary file chunk to bottom of PrimaryFileQueue",
                                ),
                            )
                        }
                    },
                    ReconciliationSession::ReconciledTerminal { file_chunk_id } => {
                        if is_inserted {
                            Self::respond_success(file_chunk_id)
                        } else {
                            Self::internal_error(
                                String::from_str(
                                    "failed to insert primary file chunk to bottom of ReconResultsQueue",
                                ),
                            )
                        }
                    },
                    _ => Self::unexpected_event(),
                }
            },
        }
    }

    /// Ends the session with success for the chunk `file_chunk_id`.
    fn respond_success(file_chunk_id: String) -> (r: (ReconciliationSession, QueueAction))
        ensures
            r.0 is Finished,
            responds_success(r.1, file_chunk_id@),
    {
        (
            ReconciliationSession::Finished,
            QueueAction::Respond(Ok(ReconcileFileChunkResponse { file_chunk_id })),
        )
    }

    /// Ends the session with an internal error.
    fn internal_error(message: String) -> (r: (ReconciliationSession, QueueAction))
        ensures
            r.0 is Finished,
            responds_error(r.1, AppErrorKind::InternalError),
    {
        (
            ReconciliationSession::Finished,
            QueueAction::Respond(Err(AppError::new(AppErrorKind::InternalError, message))),
        )
    }

    /// Ends the session on an event that its stage does not expect.
    fn unexpected_event() -> (r: (ReconciliationSession, QueueAction))
        ensures
            r.0 is Finished,
            responds_error(r.1, AppErrorKind::InternalError),
    {
        Self::internal_error(String::from_str("unexpected queue event for this reconciliation stage"))
    }
}

/// A valid request whose fetched comparison chunk is not the last one: once
/// the chunk is marked processed, the reconciled primary chunk, its
/// comparison cursor at the fetched chunk's id, goes back to the primary
/// queue and not to the results queue; once inserted, the step answers with
/// the primary chunk's id.
pub proof fn lemma_continuation_reenqueues_primary_chunk(
    request: ReconcileFileChunkRequest,
    comparison: FileUploadChunk,
    started: (ReconciliationSession, QueueAction),
    fetched: (ReconciliationSession, QueueAction),
    marked: (ReconciliationSession, QueueAction),
    inserted: (ReconciliationSession, QueueAction),
)
    requires
        chunk_is_reconcilable(request.primary_file_chunk@),
        !comparison.is_last_chunk,
        session_start(request, started),
        session_step(started.0, QueueEvent::ComparisonChunkFetched(comparison), fetched),
        session_step(fetched.0, QueueEvent::ComparisonChunkMarked(true), marked),
        session_step(marked.0, QueueEvent::ChunkInserted(true), inserted),
    ensures
        marked.1 matches QueueAction::InsertIntoPrimaryQueue(chunk) && chunk@
            == with_comparison_cursor(
            reconciled_chunk(request.primary_file_chunk@, comparison@),
            comparison.id@,
        ),
        !(marked.1 is InsertIntoResultsQueue),
        responds_success(inserted.1, request.primary_file_chunk@.id),
{
}

/// A valid request whose fetched comparison chunk is the last one: once the
/// chunk is marked processed, the reconciled primary chunk, its comparison
/// cursor at the fetched chunk's id, goes to the results queue and not back
/// to the primary queue; once inserted, the step answers with the primary
/// chunk's id.
pub proof fn lemma_last_comparison_chunk_sends_to_results(
    request: ReconcileFileChunkRequest,
    comparison: FileUploadChunk,
    started: (ReconciliationSession, QueueAction),
    fetched: (ReconciliationSession, QueueAction),
    marked: (ReconciliationSession, QueueAction),
    inserted: (ReconciliationSession, QueueAction),
)
    requires
        chunk_is_reconcilable(request.primary_file_chunk@),
        comparison.is_last_chunk,
        session_start(request, started),
        session_step(started.0, QueueEvent::ComparisonChunkFetched(comparison), fetched),
        session_step(fetched.0, QueueEvent::ComparisonChunkMarked(true), marked),
        session_step(marked.0, QueueEvent::ChunkInserted(true), inserted),
    ensures
        marked.1 matches QueueAction::InsertIntoResultsQueue(chunk) && chunk@
            == with_comparison_cursor(
            reconciled_chunk(request.primary_file_chunk@, comparison@),
            comparison.id@,
        ),
        !(marked.1 is InsertIntoPrimaryQueue),
        responds_success(inserted.1, request.primary_file_chunk@.id),
{
}

} // verus!
