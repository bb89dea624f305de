//! The data that travels through the queues: chunks, their rows, the
//! comparison policy and the queue cursors.

use vstd::prelude::*;

verus! {

/// Reconciliation verdict of one row.
#[derive(Clone, Copy, Debug, PartialEq, Eq, Structural)]
pub enum ReconStatus {
    Pending,
    Successful,
    Failed,
}

/// Which file a chunk was cut from.
#[derive(Clone, Copy, Debug, PartialEq, Eq, Structural)]
pub enum FileUploadChunkSource {
    ComparisonFileChunk,
    PrimaryFileChunk,
}

/// Maps a column of the primary file to a column of the comparison file.
/// Identifier pairs decide whether two rows describe the same record; the
/// other pairs must hold equal values for the record to reconcile.
#[derive(Clone, Copy, Debug, PartialEq, Eq, Structural)]
pub struct ComparisonPair {
    pub primary_file_column_index: usize,
    pub comparison_file_column_index: usize,
    pub is_row_identifier: bool,
}

/// The comparison policy of a reconciliation task.
#[derive(Clone, Copy, Debug, PartialEq, Eq, Structural)]
pub struct ReconciliationConfigs {
    pub should_check_for_duplicate_records_in_comparison_file: bool,
    pub should_reconciliation_be_case_sensitive: bool,
    pub should_ignore_white_space: bool,
    pub should_do_reverse_reconciliation: bool,
}

/// A stream (topic) and how far a consumer has read it; no position means
/// "from the beginning".
#[derive(Clone, Debug)]
pub struct FileChunkQueue {
    pub topic_id: String,
    pub last_acknowledged_id: Option<String>,
}

/// One line of a chunk, its columns and its verdict so far.
#[derive(Clone, Debug)]
pub struct FileUploadChunkRow {
    pub row_number: u64,
    pub raw_data: String,
    pub parsed_columns_from_row: Vec<String>,
    pub recon_result: ReconStatus,
    pub recon_result_reasons: Vec<String>,
}

/// A slice of rows of one source file, with what is needed to compare and
/// route it on its own.
#[derive(Clone, Debug)]
pub struct FileUploadChunk {
    pub id: String,
    pub upload_request_id: String,
    pub chunk_sequence_number: i64,
    pub chunk_source: FileUploadChunkSource,
    pub chunk_rows: Vec<FileUploadChunkRow>,
    pub date_created: i64,
    pub date_modified: i64,
    pub comparison_pairs: Vec<ComparisonPair>,
    pub column_headers: Vec<String>,
    pub recon_config: ReconciliationConfigs,
    pub primary_file_chunks_queue: FileChunkQueue,
    pub comparison_file_chunks_queue: FileChunkQueue,
    pub result_chunks_queue: FileChunkQueue,
    pub is_last_chunk: bool,
}

/// The kinds of failure that a pipeline step reports.
#[derive(Clone, Copy, Debug, PartialEq, Eq, Structural)]
pub enum AppErrorKind {
    BadClientRequest,
    ConnectionError,
    ResponseUnmarshalError,
    NotFound,
    InternalError,
}

/// A pipeline failure: its kind and a message for the caller.
#[derive(Clone, Debug)]
pub struct AppError {
    pub kind: AppErrorKind,
    pub message: String,
}

impl AppError {
    pub fn new(kind: AppErrorKind, message: String) -> (r: AppError)
        ensures
            r.kind == kind,
            r.message == message,
    {
        AppError { kind, message }
    }
}

/// What the task service knows of a reconciliation task.
#[derive(Clone, Debug)]
pub struct ReconTaskDetails {
    pub id: String,
    pub source_file_id: String,
    pub comparison_file_id: String,
    pub is_done: bool,
    pub has_begun: bool,
}

/// Which side of a reconciliation task a file is.
#[derive(Clone, Copy, Debug, PartialEq, Eq, Structural)]
pub enum ReconFileType {
    SourceReconFile,
    ComparisonReconFile,
}

/// What the task service knows of one file of a task.
#[derive(Clone, Debug)]
pub struct ReconFileDetails {
    pub id: String,
    pub file_name: String,
    pub file_size: u64,
    pub row_count: u64,
    pub column_count: u64,
    pub recon_file_type: ReconFileType,
    pub file_hash: String,
}

/// The characters of each string of a sequence.
pub open spec fn strings_view(v: Seq<String>) -> Seq<Seq<char>> {
    v.map_values(|s: String| s@)
}

/// The identifier pairs among `pairs`, in their order.
pub open spec fn identifier_pairs(pairs: Seq<ComparisonPair>) -> Seq<ComparisonPair>
    decreases pairs.len(),
{
    if pairs.len() == 0 {
        pairs
    } else if pairs.last().is_row_identifier {
        identifier_pairs(pairs.drop_last()).push(pairs.last())
    } else {
        identifier_pairs(pairs.drop_last())
    }
}

/// The value pairs (those that are not identifiers) among `pairs`, in their
/// order.
pub open spec fn value_pairs(pairs: Seq<ComparisonPair>) -> Seq<ComparisonPair>
    decreases pairs.len(),
{
    if pairs.len() == 0 {
        pairs
    } else if !pairs.last().is_row_identifier {
        value_pairs(pairs.drop_last()).push(pairs.last())
    } else {
        value_pairs(pairs.drop_last())
    }
}

/// The abstract value of a queue cursor.
pub struct ChunkQueueView {
    pub topic_id: Seq<char>,
    pub last_acknowledged_id: Option<Seq<char>>,
}

/// The abstract value of a chunk row.
pub struct ChunkRowView {
    pub row_number: u64,
    pub raw_data: Seq<char>,
    pub columns: Seq<Seq<char>>,
    pub verdict: ReconStatus,
    pub reasons: Seq<Seq<char>>,
}

/// The abstract value of a chunk.
pub struct FileChunkView {
    pub id: Seq<char>,
    pub upload_request_id: Seq<char>,
    pub chunk_sequence_number: i64,
    pub chunk_source: FileUploadChunkSource,
    pub rows: Seq<ChunkRowView>,
    pub date_created: i64,
    pub date_modified: i64,
    pub comparison_pairs: Seq<ComparisonPair>,
    pub column_headers: Seq<Seq<char>>,
    pub recon_config: ReconciliationConfigs,
    pub primary_file_chunks_queue: ChunkQueueView,
    pub comparison_file_chunks_queue: ChunkQueueView,
    pub result_chunks_queue: ChunkQueueView,
    pub is_last_chunk: bool,
}

/// The characters of an optional string.
pub open spec fn optional_string_view(s: Option<String>) -> Option<Seq<char>> {
    match s {
        Some(v) => Some(v@),
        None => None,
    }
}

impl View for FileChunkQueue {
    type V = ChunkQueueView;

    open spec fn view(&self) -> ChunkQueueView {
        ChunkQueueView {
            topic_id: self.topic_id@,
            last_acknowledged_id: optional_string_view(self.last_acknowledged_id),
        }
    }
}

impl View for FileUploadChunkRow {
    type V = ChunkRowView;

    open spec fn view(&self) -> ChunkRowView {
        ChunkRowView {
            row_number: self.row_number,
            raw_data: self.raw_data@,
            columns: strings_view(self.parsed_columns_from_row@),
            verdict: self.recon_result,
            reasons: strings_view(self.recon_result_reasons@),
        }
    }
}

/// The abstract values of a sequence of rows.
pub open spec fn rows_view(rows: Seq<FileUploadChunkRow>) -> Seq<ChunkRowView> {
    rows.map_values(|r: FileUploadChunkRow| r@)
}

impl View for FileUploadChunk {
    type V = FileChunkView;

    open spec fn view(&self) -> FileChunkView {
        FileChunkView {
            id: self.id@,
            upload_request_id: self.upload_request_id@,
            chunk_sequence_number: self.chunk_sequence_number,
            chunk_source: self.chunk_source,
            rows: rows_view(self.chunk_rows@),
            date_created: self.date_created,
            date_modified: self.date_modified,
            comparison_pairs: self.comparison_pairs@,
            column_headers: strings_view(self.column_headers@),
            recon_config: self.recon_config,
            primary_file_chunks_queue: self.primary_file_chunks_queue@,
            comparison_file_chunks_queue: self.comparison_file_chunks_queue@,
            result_chunks_queue: self.result_chunks_queue@,
            is_last_chunk: self.is_last_chunk,
        }
    }
}

/// A copy of a list of strings.
pub(crate) fn copy_strings(v: &Vec<String>) -> (r: Vec<String>)
    ensures
        strings_view(r@) == strings_view(v@),
{
    let mut r: Vec<String> = Vec::new();
    let mut i: usize = 0;
    while i < v.len()
        invariant
            i <= v@.len(),
            r@.len() == i,
            forall|j: int| 0 <= j < i ==> (#[trigger] r@[j])@ == v@[j]@,
        decreases v@.len() - i,
    {
        r.push(v[i].clone());
        i = i + 1;
    }
    assert(strings_view(r@) =~= strings_view(v@));
    r
}

impl FileChunkQueue {
    /// A copy of the cursor.
    pub fn duplicate(&self) -> (r: FileChunkQueue)
        ensures
            r@ == self@,
    {
        let last_acknowledged_id = match &self.last_acknowledged_id {
            Some(id) => Some(id.clone()),
            None => None,
        };
        FileChunkQueue { topic_id: self.topic_id.clone(), last_acknowledged_id }
    }
}

impl FileUploadChunkRow {
    /// A copy of the row.
    pub fn duplicate(&self) -> (r: FileUploadChunkRow)
        ensures
            r@ == self@,
    {
        FileUploadChunkRow {
            row_number: self.row_number,
            raw_data: self.raw_data.clone(),
            parsed_columns_from_row: copy_strings(&self.parsed_columns_from_row),
            recon_result: self.recon_result,
            recon_result_reasons: copy_strings(&self.recon_result_reasons),
        }
    }
}

impl FileUploadChunk {
    /// A copy of the chunk.
    pub fn duplicate(&self) -> (r: FileUploadChunk)
        ensures
            r@ == self@,
    {
        let mut rows: Vec<FileUploadChunkRow> = Vec::new();
        let mut i: usize = 0;
        while i < self.chunk_rows.len()
            invariant
                i <= self.chunk_rows@.len(),
                rows@.len() == i,
                forall|j: int| 0 <= j < i ==> (#[trigger] rows@[j])@ == self.chunk_rows@[j]@,
            decreases self.chunk_rows@.len() - i,
        {
            rows.push(self.chunk_rows[i].duplicate());
            i = i + 1;
        }
        assert(rows_view(rows@) =~= rows_view(self.chunk_rows@));
        let mut pairs: Vec<ComparisonPair> = Vec::new();
        let mut k: usize = 0;
        while k < self.comparison_pairs.len()
            invariant
                k <= self.comparison_pairs@.len(),
                pairs@ == self.comparison_pairs@.take(k as int),
            decreases self.comparison_pairs@.len() - k,
        {
            pairs.push(self.comparison_pairs[k]);
            k = k + 1;
            assert(pairs@ =~= self.comparison_pairs@.take(k as int));
        }
        assert(self.comparison_pairs@.take(k as int) =~= self.comparison_pairs@);
        FileUploadChunk {
            id: self.id.clone(),
            upload_request_id: self.upload_request_id.clone(),
            chunk_sequence_number: self.chunk_sequence_number,
            chunk_source: self.chunk_source,
            chunk_rows: rows,
            date_created: self.date_created,
            date_modified: self.date_modified,
            comparison_pairs: pairs,
            column_headers: copy_strings(&self.column_headers),
            recon_config: self.recon_config,
            primary_file_chunks_queue: self.primary_file_chunks_queue.duplicate(),
            comparison_file_chunks_queue: self.comparison_file_chunks_queue.duplicate(),
            result_chunks_queue: self.result_chunks_queue.duplicate(),
            is_last_chunk: self.is_last_chunk,
        }
    }

    /// The pairs that identify a record, in their order.
    pub fn get_row_identifier_comparison_pairs(&self) -> (r: Vec<ComparisonPair>)
        ensures
            r@ == identifier_pairs(self.comparison_pairs@),
    {
        let mut r: Vec<ComparisonPair> = Vec::new();
        let mut i: usize = 0;
        while i < self.comparison_pairs.len()
            invariant
                i <= self.comparison_pairs@.len(),
                r@ == identifier_pairs(self.comparison_pairs@.take(i as int)),
            decreases self.comparison_pairs@.len() - i,
        {
            let pair = self.comparison_pairs[i];
            proof {
                let s = self.comparison_pairs@.take(i as int + 1);
                assert(s.drop_last() =~= self.comparison_pairs@.take(i as int));
            }
            if pair.is_row_identifier {
                r.push(pair);
            }
            i = i + 1;
        }
        assert(self.comparison_pairs@.take(i as int) =~= self.comparison_pairs@);
        r
    }

    /// The pairs whose values must agree, in their order.
    pub fn get_comparison_pairs_that_are_not_row_identifiers(&self) -> (r: Vec<ComparisonPair>)
        ensures
            r@ == value_pairs(self.comparison_pairs@),
    {
        let mut r: Vec<ComparisonPair> = Vec::new();
        let mut i: usize = 0;
        while i < self.comparison_pairs.len()
            invariant
                i <= self.comparison_pairs@.len(),
                r@ == value_pairs(self.comparison_pairs@.take(i as int)),
            decreases self.comparison_pairs@.len() - i,
        {
            let pair = self.comparison_pairs[i];
            proof {
                let s = self.comparison_pairs@.take(i as int + 1);
                assert(s.drop_last() =~= self.comparison_pairs@.take(i as int));
            }
            if !pair.is_row_identifier {
                r.push(pair);
            }
            i = i + 1;
        }
        assert(self.comparison_pairs@.take(i as int) =~= self.comparison_pairs@);
        r
    }
}

} // verus!
