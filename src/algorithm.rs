//! The comparison predicate, the row matcher and the chunk comparator.
//!
//! The comparator folds one comparison chunk into the verdicts of the rows of
//! one primary chunk. Its behaviour is stated by `reconciled_chunk`, and the
//! laws at the end of this module follow from that statement.

use vstd::prelude::*;

use crate::entities::{
    identifier_pairs, strings_view, value_pairs, AppError, ChunkRowView, ComparisonPair,
    FileChunkView, FileUploadChunk, FileUploadChunkRow, ReconStatus, ReconciliationConfigs,
};
use crate::text::{
    decimal, eq_ignore_ascii_case, equal_ignoring_ascii_case, trim_whitespace, trimmed,
    u64_to_decimal,
};

verus! {

/// The value of column `i`, or the empty string where the row has no such
/// column.
pub open spec fn column_value(columns: Seq<Seq<char>>, i: int) -> Seq<char> {
    if 0 <= i < columns.len() {
        columns[i]
    } else {
        Seq::empty()
    }
}

/// Two column values are equal under the policy: both are trimmed first if
/// whitespace is ignored, then compared exactly or up to ASCII case.
pub open spec fn values_equal(a: Seq<char>, b: Seq<char>, config: ReconciliationConfigs) -> bool {
    let x = if config.should_ignore_white_space {
        trimmed(a)
    } else {
        a
    };
    let y = if config.should_ignore_white_space {
        trimmed(b)
    } else {
        b
    };
    if config.should_reconciliation_be_case_sensitive {
        x == y
    } else {
        equal_ignoring_ascii_case(x, y)
    }
}

/// The two rows agree on the columns that `pair` maps onto each other.
pub open spec fn pair_values_equal(
    primary: Seq<Seq<char>>,
    comparison: Seq<Seq<char>>,
    pair: ComparisonPair,
    config: ReconciliationConfigs,
) -> bool {
    values_equal(
        column_value(primary, pair.primary_file_column_index as int),
        column_value(comparison, pair.comparison_file_column_index as int),
        config,
    )
}

/// The two rows agree on every pair of `pairs`; with no pairs they always do.
pub open spec fn same_record(
    primary: Seq<Seq<char>>,
    comparison: Seq<Seq<char>>,
    pairs: Seq<ComparisonPair>,
    config: ReconciliationConfigs,
) -> bool {
    forall|k: int|
        0 <= k < pairs.len() ==> #[trigger] pair_values_equal(primary, comparison, pairs[k], config)
}

/// The position of the first pair at or after `k` on which the rows disagree.
pub open spec fn first_mismatch(
    primary: Seq<Seq<char>>,
    comparison: Seq<Seq<char>>,
    pairs: Seq<ComparisonPair>,
    config: ReconciliationConfigs,
    k: int,
) -> Option<int>
    decreases pairs.len() - k,
{
    if k < 0 || k >= pairs.len() {
        None
    } else if !pair_values_equal(primary, comparison, pairs[k], config) {
        Some(k)
    } else {
        first_mismatch(primary, comparison, pairs, config, k + 1)
    }
}

/// The reason recorded when two matching rows differ in their number of
/// columns.
pub open spec fn column_count_reason(
    row_number: u64,
    primary_count: nat,
    comparison_count: nat,
) -> Seq<char> {
    "Count of columns to compare does not match. RowNumber: ["@ + decimal(row_number as nat)
        + "], PrimaryFile Has ["@ + decimal(primary_count) + "] columns to compare, ComparisonFile has ["@
        + decimal(comparison_count) + "] columns to compare"@
}

/// The reason recorded when two matching rows disagree on a value pair.
pub open spec fn value_mismatch_reason(
    row_number: u64,
    primary_header: Seq<char>,
    primary_value: Seq<char>,
    comparison_value: Seq<char>,
    comparison_header: Seq<char>,
) -> Seq<char> {
    "RowNumber: ["@ + decimal(row_number as nat) + "], Column ["@ + primary_header
        + "]: PrimaryFile has value ["@ + primary_value + "] while ComparisonFile has value ["@
        + comparison_value + "] in Column ["@ + comparison_header + "]"@
}

/// The row after it is held against one comparison row with columns
/// `comparison`. Rows that are not the same record leave it as it is. A
/// different column count, or the first value pair that disagrees, fails it
/// with a reason; otherwise a pending row becomes successful.
pub open spec fn compare_with_row(
    primary: FileChunkView,
    comparison_headers: Seq<Seq<char>>,
    row: ChunkRowView,
    comparison: Seq<Seq<char>>,
) -> ChunkRowView {
    let config = primary.recon_config;
    let columns = row.columns;
    if !same_record(columns, comparison, identifier_pairs(primary.comparison_pairs), config) {
        row
    } else if columns.len() != comparison.len() {
        ChunkRowView {
            verdict: ReconStatus::Failed,
            reasons: row.reasons.push(
                column_count_reason(row.row_number, columns.len(), comparison.len()),
            ),
            ..row
        }
    } else {
        let pairs = value_pairs(primary.comparison_pairs);
        match first_mismatch(columns, comparison, pairs, config, 0) {
            Some(k) => {
                let pair = pairs[k];
                let p = pair.primary_file_column_index as int;
                let c = pair.comparison_file_column_index as int;
                ChunkRowView {
                    verdict: ReconStatus::Failed,
                    reasons: row.reasons.push(
                        value_mismatch_reason(
                            row.row_number,
                            column_value(primary.column_headers, p),
                            column_value(columns, p),
                            column_value(comparison, c),
                            column_value(comparison_headers, c),
                        ),
                    ),
                    ..row
                }
            },
            None => {
                if row.verdict == ReconStatus::Pending {
                    ChunkRowView { verdict: ReconStatus::Successful, ..row }
                } else {
                    row
                }
            },
        }
    }
}

/// The row after it is held, in order, against the first `n` rows of the
/// comparison chunk.
pub open spec fn compare_with_rows(
    primary: FileChunkView,
    comparison: FileChunkView,
    row: ChunkRowView,
    n: int,
) -> ChunkRowView
    decreases n,
{
    if n <= 0 {
        row
    } else {
        compare_with_row(
            primary,
            comparison.column_headers,
            compare_with_rows(primary, comparison, row, n - 1),
            comparison.rows[n - 1].columns,
        )
    }
}

/// The row after one comparator call: a failed row is left alone, any other
/// is held against every comparison row.
pub open spec fn reconciled_row(
    primary: FileChunkView,
    comparison: FileChunkView,
    row: ChunkRowView,
) -> ChunkRowView {
    if row.verdict == ReconStatus::Failed {
        row
    } else {
        compare_with_rows(primary, comparison, row, comparison.rows.len() as int)
    }
}

/// The primary chunk after one comparator call: every row reconciled, all
/// else kept.
pub open spec fn reconciled_chunk(primary: FileChunkView, comparison: FileChunkView) -> FileChunkView {
    FileChunkView {
        rows: primary.rows.map_values(|r: ChunkRowView| reconciled_row(primary, comparison, r)),
        ..primary
    }
}

/// The primary chunk after one comparator call for each of `comparisons`,
/// in order.
pub open spec fn reconciled_in_turn(primary: FileChunkView, comparisons: Seq<FileChunkView>) -> FileChunkView
    decreases comparisons.len(),
{
    if comparisons.len() == 0 {
        primary
    } else {
        reconciled_chunk(reconciled_in_turn(primary, comparisons.drop_last()), comparisons.last())
    }
}

/// Reconciles a primary chunk against one comparison chunk.
pub trait FileReconciliationAlgorithmInterface {
    /// Updates the verdicts of `primary_file_chunk` against
    /// `comparison_file_chunk` and returns a copy of the updated chunk.
    fn reconcile_primary_file_chunk(
        &self,
        primary_file_chunk: &mut FileUploadChunk,
        comparison_file_chunk: &FileUploadChunk,
    ) -> (r: Result<FileUploadChunk, AppError>)
        ensures
            final(primary_file_chunk)@ == reconciled_chunk(
                old(primary_file_chunk)@,
                comparison_file_chunk@,
            ),
            r matches Ok(c) && c@ == final(primary_file_chunk)@,
    ;
}

/// The reconciliation algorithm of this library.
pub struct GenericFileReconciliationAlgorithm {}

/// Column `i` of `columns`, or `empty` where there is no such column.
fn column_or_empty<'a>(columns: &'a Vec<String>, i: usize, empty: &'a String) -> (r: &'a String)
    requires
        empty@ == Seq::<char>::empty(),
    ensures
        r@ == column_value(strings_view(columns@), i as int),
{
    if i < columns.len() {
        &columns[i]
    } else {
        empty
    }
}

/// The text of `column_count_reason`.
fn describe_column_count_mismatch(
    row_number: u64,
    primary_count: usize,
    comparison_count: usize,
) -> (r: String)
    ensures
        r@ == column_count_reason(row_number, primary_count as nat, comparison_count as nat),
{
    let mut r = String::from_str("Count of columns to compare does not match. RowNumber: [");
    r.append(u64_to_decimal(row_number).as_str());
    r.append("], PrimaryFile Has [");
    r.append(u64_to_decimal(primary_count as u64).as_str());
    r.append("] columns to compare, ComparisonFile has [");
    r.append(u64_to_decimal(comparison_count as u64).as_str());
    r.append("] columns to compare");
    r
}

/// The text of `value_mismatch_reason`.
fn describe_value_mismatch(
    row_number: u64,
    primary_header: &String,
    primary_value: &String,
    comparison_value: &String,
    comparison_header: &String,
) -> (r: String)
    ensures
        r@ == value_mismatch_reason(
            row_number,
            primary_header@,
            primary_value@,
            comparison_value@,
            comparison_header@,
        ),
{
    let mut r = String::from_str("RowNumber: [");
    r.append(u64_to_decimal(row_number).as_str());
    r.append("], Column [");
    r.append(primary_header.as_str());
    r.append("]: PrimaryFile has value [");
    r.append(primary_value.as_str());
    r.append("] while ComparisonFile has value [");
    r.append(comparison_value.as_str());
    r.append("] in Column [");
    r.append(comparison_header.as_str());
    r.append("]");
    r
}

impl GenericFileReconciliationAlgorithm {
    /// Whether the two rows agree on every pair of `row_id_comparison_pairs`
    /// (all of them, whatever their identifier flag).
    pub fn are_same_row_identifiers(
        &self,
        primary_file_row_parts: &Vec<String>,
        comparison_file_row_parts: &Vec<String>,
        row_id_comparison_pairs: &Vec<ComparisonPair>,
        recon_configs: &ReconciliationConfigs,
    ) -> (r: bool)
        ensures
            r == same_record(
                strings_view(primary_file_row_parts@),
                strings_view(comparison_file_row_parts@),
                row_id_comparison_pairs@,
                *recon_configs,
            ),
    {
        let ghost p = strings_view(primary_file_row_parts@);
        let ghost c = strings_view(comparison_file_row_parts@);
        let empty = String::new();
        let mut k: usize = 0;
        while k < row_id_comparison_pairs.len()
            invariant
                k <= row_id_comparison_pairs@.len(),
                empty@ == Seq::<char>::empty(),
                p == strings_view(primary_file_row_parts@),
                c == strings_view(comparison_file_row_parts@),
                forall|j: int|
                    0 <= j < k ==> #[trigger] pair_values_equal(
                        p,
                        c,
                        row_id_comparison_pairs@[j],
                        *recon_configs,
                    ),
            decreases row_id_comparison_pairs@.len() - k,
        {
            let pair = row_id_comparison_pairs[k];
            let a = column_or_empty(primary_file_row_parts, pair.primary_file_column_index, &empty);
            let b = column_or_empty(
                comparison_file_row_parts,
                pair.comparison_file_column_index,
                &empty,
            );
            if !self.are_column_values_the_same(a, b, recon_configs) {
                assert(!pair_values_equal(p, c, row_id_comparison_pairs@[k as int], *recon_configs));
                return false;
            }
            k = k + 1;
        }
        true
    }

    /// Whether two column values are equal under the policy.
    pub fn are_column_values_the_same(
        &self,
        primary_file_row_column_value: &String,
        comparison_file_row_column_value: &String,
        recon_configs: &ReconciliationConfigs,
    ) -> (r: bool)
        ensures
            r == values_equal(
                primary_file_row_column_value@,
                comparison_file_row_column_value@,
                *recon_configs,
            ),
    {
        if recon_configs.should_ignore_white_space {
            let a = trim_whitespace(primary_file_row_column_value.as_str());
            let b = trim_whitespace(comparison_file_row_column_value.as_str());
            Self::sanitized_values_equal(&a, &b, recon_configs)
        } else {
            Self::sanitized_values_equal(
                primary_file_row_column_value,
                comparison_file_row_column_value,
                recon_configs,
            )
        }
    }

    /// Compares two values that are already trimmed where the policy asks.
    pub fn sanitized_values_equal(a: &String, b: &String, recon_configs: &ReconciliationConfigs) -> (r:
        bool)
        ensures
            r == if recon_configs.should_reconciliation_be_case_sensitive {
                a@ == b@
            } else {
                equal_ignoring_ascii_case(a@, b@)
            },
    {
        if recon_configs.should_reconciliation_be_case_sensitive {
            a.eq(b)
        } else {
            eq_ignore_ascii_case(a.as_str(), b.as_str())
        }
    }

    /// The position of the first value pair on which the two rows disagree.
    fn first_value_mismatch(
        &self,
        primary_file_row_parts: &Vec<String>,
        comparison_file_row_parts: &Vec<String>,
        pairs: &Vec<ComparisonPair>,
        recon_configs: &ReconciliationConfigs,
    ) -> (r: Option<usize>)
        ensures
            first_mismatch(
                strings_view(primary_file_row_parts@),
                strings_view(comparison_file_row_parts@),
                pairs@,
                *recon_configs,
                0,
            ) == match r {
                Some(k) => Some(k as int),
                None => None::<int>,
            },
            r matches Some(k) ==> k < pairs@.len(),
    {
        let ghost p = strings_view(primary_file_row_parts@);
        let ghost c = strings_view(comparison_file_row_parts@);
        let empty = String::new();
        let mut k: usize = 0;
        while k < pairs.len()
            invariant
                k <= pairs@.len(),
                empty@ == Seq::<char>::empty(),
                p == strings_view(primary_file_row_parts@),
                c == strings_view(comparison_file_row_parts@),
                first_mismatch(p, c, pairs@, *recon_configs, 0) == first_mismatch(
                    p,
                    c,
                    pairs@,
                    *recon_configs,
                    k as int,
                ),
            decreases pairs@.len() - k,
        {
            let pair = pairs[k];
            let a = column_or_empty(primary_file_row_parts, pair.primary_file_column_index, &empty);
            let b = column_or_empty(
                comparison_file_row_parts,
                pair.comparison_file_column_index,
                &empty,
            );
            if !self.are_column_values_the_same(a, b, recon_configs) {
                return Some(k);
            }
            k = k + 1;
        }
        None
    }

    /// Holds one row of the primary chunk against every row of the
    /// comparison chunk, in order.
    fn reconcile_row(
        &self,
        row: &mut FileUploadChunkRow,
        id_pairs: &Vec<ComparisonPair>,
        pairs: &Vec<ComparisonPair>,
        recon_configs: &ReconciliationConfigs,
        primary_headers: &Vec<String>,
        comparison_file_chunk: &FileUploadChunk,
        Ghost(primary): Ghost<FileChunkView>,
    )
        requires
            id_pairs@ == identifier_pairs(primary.comparison_pairs),
            pairs@ == value_pairs(primary.comparison_pairs),
            *recon_configs == primary.recon_config,
            strings_view(primary_headers@) == primary.column_headers,
        ensures
            final(row)@ == compare_with_rows(
                primary,
                comparison_file_chunk@,
                old(row)@,
                comparison_file_chunk@.rows.len() as int,
            ),
    {
        let ghost comparison = comparison_file_chunk@;
        let empty = String::new();
        let mut j: usize = 0;
        while j < comparison_file_chunk.chunk_rows.len()
            invariant
                j <= comparison.rows.len(),
                comparison == comparison_file_chunk@,
                empty@ == Seq::<char>::empty(),
                id_pairs@ == identifier_pairs(primary.comparison_pairs),
                pairs@ == value_pairs(primary.comparison_pairs),
                *recon_configs == primary.recon_config,
                strings_view(primary_headers@) == primary.column_headers,
                row@ == compare_with_rows(primary, comparison, old(row)@, j as int),
            decreases comparison.rows.len() - j,
        {
            let comparison_row = &comparison_file_chunk.chunk_rows[j];
            let comparison_parts = &comparison_row.parsed_columns_from_row;
            let ghost before = row@;
            assert(comparison.rows[j as int] == comparison_row@);
            if self.are_same_row_identifiers(
                &row.parsed_columns_from_row,
                comparison_parts,
                id_pairs,
                recon_configs,
            ) {
                let primary_count = row.parsed_columns_from_row.len();
                let comparison_count = comparison_parts.len();
                if primary_count != comparison_count {
                    let reason = describe_column_count_mismatch(
                        row.row_number,
                        primary_count,
                        comparison_count,
                    );
                    row.recon_result = ReconStatus::Failed;
                    row.recon_result_reasons.push(reason);
                    assert(row@.reasons =~= before.reasons.push(
                        column_count_reason(
                            before.row_number,
                            primary_count as nat,
                            comparison_count as nat,
                        ),
                    ));
                } else {
                    match self.first_value_mismatch(
                        &row.parsed_columns_from_row,
                        comparison_parts,
                        pairs,
                        recon_configs,
                    ) {
                        Some(k) => {
                            let pair = pairs[k];
                            let reason = describe_value_mismatch(
                                row.row_number,
                                column_or_empty(
                                    primary_headers,
                                    pair.primary_file_column_index,
                                    &empty,
                                ),
                                column_or_empty(
                                    &row.parsed_columns_from_row,
                                    pair.primary_file_column_index,
                                    &empty,
                                ),
                                column_or_empty(
                                    comparison_parts,
                                    pair.comparison_file_column_index,
                                    &empty,
                                ),
                                column_or_empty(
                                    &comparison_file_chunk.column_headers,
                                    pair.comparison_file_column_index,
                                    &empty,
                                ),
                            );
                            let ghost expected = before.reasons.push(reason@);
                            row.recon_result = ReconStatus::Failed;
                            row.recon_result_reasons.push(reason);
                            assert(row@.reasons =~= expected);
                        },
                        None => {
                            if row.recon_result == ReconStatus::Pending {
                                row.recon_result = ReconStatus::Successful;
                            }
                        },
                    }
                }
            }
            assert(row@ == compare_with_row(primary, comparison.column_headers, before, comparison.rows[j as int].columns));
            j = j + 1;
        }
    }
}

impl FileReconciliationAlgorithmInterface for GenericFileReconciliationAlgorithm {
    fn reconcile_primary_file_chunk(
        &self,
        primary_file_chunk: &mut FileUploadChunk,
        comparison_file_chunk: &FileUploadChunk,
    ) -> (r: Result<FileUploadChunk, AppError>) {
        let ghost primary = old(primary_file_chunk)@;
        let id_pairs = primary_file_chunk.get_row_identifier_comparison_pairs();
        let pairs = primary_file_chunk.get_comparison_pairs_that_are_not_row_identifiers();
        let recon_configs = primary_file_chunk.recon_config;
        let n = primary_file_chunk.chunk_rows.len();
        let mut i: usize = 0;
        while i < n
            invariant
                n == primary.rows.len(),
                i <= n,
                id_pairs@ == identifier_pairs(primary.comparison_pairs),
                pairs@ == value_pairs(primary.comparison_pairs),
                recon_configs == primary.recon_config,
                primary_file_chunk@ == (FileChunkView {
                    rows: primary_file_chunk@.rows,
                    ..primary
                }),
                primary_file_chunk@.rows.len() == n,
                forall|k: int|
                    0 <= k < i ==> #[trigger] primary_file_chunk@.rows[k] == reconciled_row(
                        primary,
                        comparison_file_chunk@,
                        primary.rows[k],
                    ),
                forall|k: int| i <= k < n ==> #[trigger] primary_file_chunk@.rows[k] == primary.rows[k],
            decreases n - i,
        {
            let ghost rows_before = primary_file_chunk@.rows;
            let ghost vec_before = primary_file_chunk.chunk_rows@;
            assert(rows_before[i as int] == vec_before[i as int]@);
            assert(primary.rows[i as int] == rows_before[i as int]);
            if primary_file_chunk.chunk_rows[i].recon_result != ReconStatus::Failed {
                self.reconcile_row(
                    &mut primary_file_chunk.chunk_rows[i],
                    &id_pairs,
                    &pairs,
                    &recon_configs,
                    &primary_file_chunk.column_headers,
                    comparison_file_chunk,
                    Ghost(primary),
                );
            }
            assert(primary_file_chunk@.rows[i as int] == primary_file_chunk.chunk_rows@[i as int]@);
            assert(primary_file_chunk@.rows[i as int] == reconciled_row(
                primary,
                comparison_file_chunk@,
                primary.rows[i as int],
            ));
            assert forall|k: int| 0 <= k < n && k != i implies #[trigger] primary_file_chunk@.rows[k]
                == rows_before[k] by {
                assert(primary_file_chunk.chunk_rows@[k] == vec_before[k]);
            }
            i = i + 1;
        }
        assert(primary_file_chunk@.rows =~= reconciled_chunk(primary, comparison_file_chunk@).rows);
        Ok(primary_file_chunk.duplicate())
    }
}

/// Holding a row against comparison rows keeps its number, text and columns.
proof fn lemma_compare_keeps_row(
    primary: FileChunkView,
    comparison: FileChunkView,
    row: ChunkRowView,
    n: int,
)
    ensures
        compare_with_rows(primary, comparison, row, n).row_number == row.row_number,
        compare_with_rows(primary, comparison, row, n).raw_data == row.raw_data,
        compare_with_rows(primary, comparison, row, n).columns == row.columns,
    decreases n,
{
    if n > 0 {
        lemma_compare_keeps_row(primary, comparison, row, n - 1);
    }
}

/// Once failed, a row stays failed while later comparison rows are held
/// against it, and its reasons only grow at the end.
proof fn lemma_failure_persists(
    primary: FileChunkView,
    comparison: FileChunkView,
    row: ChunkRowView,
    m: int,
    n: int,
)
    requires
        0 <= m <= n,
        compare_with_rows(primary, comparison, row, m).verdict == ReconStatus::Failed,
    ensures
        compare_with_rows(primary, comparison, row, n).verdict == ReconStatus::Failed,
        compare_with_rows(primary, comparison, row, m).reasons.len() <= compare_with_rows(
            primary,
            comparison,
            row,
            n,
        ).reasons.len(),
        compare_with_rows(primary, comparison, row, m).reasons == compare_with_rows(
            primary,
            comparison,
            row,
            n,
        ).reasons.take(compare_with_rows(primary, comparison, row, m).reasons.len() as int),
    decreases n - m,
{
    if n > m {
        lemma_failure_persists(primary, comparison, row, m, n - 1);
        let before = compare_with_rows(primary, comparison, row, n - 1);
        let after = compare_with_rows(primary, comparison, row, n);
        let len = compare_with_rows(primary, comparison, row, m).reasons.len() as int;
        assert(after.reasons == before.reasons || after.reasons == before.reasons.push(
            after.reasons.last(),
        ));
        assert(after.reasons.take(len) =~= before.reasons.take(len));
    } else {
        let at = compare_with_rows(primary, comparison, row, m);
        assert(at.reasons.take(at.reasons.len() as int) =~= at.reasons);
    }
}

/// A row held against comparison rows none of which is the same record is
/// left exactly as it was.
proof fn lemma_no_match_leaves_row(
    primary: FileChunkView,
    comparison: FileChunkView,
    row: ChunkRowView,
    n: int,
)
    requires
        n <= comparison.rows.len(),
        forall|j: int|
            0 <= j < n ==> !same_record(
                row.columns,
                #[trigger] comparison.rows[j].columns,
                identifier_pairs(primary.comparison_pairs),
                primary.recon_config,
            ),
    ensures
        compare_with_rows(primary, comparison, row, n) == row,
    decreases n,
{
    if n > 0 {
        lemma_no_match_leaves_row(primary, comparison, row, n - 1);
        let _ = comparison.rows[n - 1].columns;
    }
}

/// A row that is not yet failed and meets a comparison row of the same
/// record with a different number of columns ends the call failed, and one of
/// its reasons gives both column counts.
pub proof fn lemma_column_count_mismatch_fails_row(
    primary: FileChunkView,
    comparison: FileChunkView,
    i: int,
    j: int,
)
    requires
        0 <= i < primary.rows.len(),
        0 <= j < comparison.rows.len(),
        primary.rows[i].verdict != ReconStatus::Failed,
        same_record(
            primary.rows[i].columns,
            comparison.rows[j].columns,
            identifier_pairs(primary.comparison_pairs),
            primary.recon_config,
        ),
        primary.rows[i].columns.len() != comparison.rows[j].columns.len(),
    ensures
        reconciled_chunk(primary, comparison).rows[i].verdict == ReconStatus::Failed,
        reconciled_chunk(primary, comparison).rows[i].reasons.contains(
            column_count_reason(
                primary.rows[i].row_number,
                primary.rows[i].columns.len(),
                comparison.rows[j].columns.len(),
            ),
        ),
{
    let row = primary.rows[i];
    let n = comparison.rows.len() as int;
    let reason = column_count_reason(
        row.row_number,
        row.columns.len(),
        comparison.rows[j].columns.len(),
    );
    lemma_compare_keeps_row(primary, comparison, row, j);
    let failed = compare_with_rows(primary, comparison, row, j + 1);
    assert(failed.reasons == compare_with_rows(primary, comparison, row, j).reasons.push(reason));
    lemma_failure_persists(primary, comparison, row, j + 1, n);
    let last = compare_with_rows(primary, comparison, row, n);
    let k = failed.reasons.len() - 1;
    assert(last.reasons.take(failed.reasons.len() as int)[k] == last.reasons[k]);
    assert(last.reasons[k] == reason);
    assert(reconciled_chunk(primary, comparison).rows[i] == last);
}

/// A row that no comparison row matches on the identifier pairs comes out of
/// the call unchanged: a pending row stays pending, it is never failed for
/// want of a match.
pub proof fn lemma_unmatched_row_unchanged(primary: FileChunkView, comparison: FileChunkView, i: int)
    requires
        0 <= i < primary.rows.len(),
        forall|j: int|
            0 <= j < comparison.rows.len() ==> !same_record(
                primary.rows[i].columns,
                #[trigger] comparison.rows[j].columns,
                identifier_pairs(primary.comparison_pairs),
                primary.recon_config,
            ),
    ensures
        reconciled_chunk(primary, comparison).rows[i] == primary.rows[i],
{
    lemma_no_match_leaves_row(primary, comparison, primary.rows[i], comparison.rows.len() as int);
}

/// A row that is already failed is not evaluated again: it comes out of the
/// call unchanged, reasons included.
pub proof fn lemma_failed_row_unchanged(primary: FileChunkView, comparison: FileChunkView, i: int)
    requires
        0 <= i < primary.rows.len(),
        primary.rows[i].verdict == ReconStatus::Failed,
    ensures
        reconciled_chunk(primary, comparison).rows[i] == primary.rows[i],
{
}

/// Successive calls keep the number of rows, the pairs and the policy of the
/// primary chunk, and leave alone a row that no comparison row matches.
proof fn lemma_unmatched_row_unchanged_in_turn(
    primary: FileChunkView,
    comparisons: Seq<FileChunkView>,
    i: int,
)
    requires
        0 <= i < primary.rows.len(),
        forall|t: int, j: int|
            0 <= t < comparisons.len() && 0 <= j < comparisons[t].rows.len() ==> !same_record(
                primary.rows[i].columns,
                #[trigger] comparisons[t].rows[j].columns,
                identifier_pairs(primary.comparison_pairs),
                primary.recon_config,
            ),
    ensures
        reconciled_in_turn(primary, comparisons).rows.len() == primary.rows.len(),
        reconciled_in_turn(primary, comparisons).comparison_pairs == primary.comparison_pairs,
        reconciled_in_turn(primary, comparisons).recon_config == primary.recon_config,
        reconciled_in_turn(primary, comparisons).rows[i] == primary.rows[i],
    decreases comparisons.len(),
{
    if comparisons.len() > 0 {
        let earlier = comparisons.drop_last();
        assert forall|t: int, j: int|
            0 <= t < earlier.len() && 0 <= j < earlier[t].rows.len() implies !same_record(
            primary.rows[i].columns,
            #[trigger] earlier[t].rows[j].columns,
            identifier_pairs(primary.comparison_pairs),
            primary.recon_config,
        ) by {
            assert(earlier[t] == comparisons[t]);
        }
        lemma_unmatched_row_unchanged_in_turn(primary, earlier, i);
        let before = reconciled_in_turn(primary, earlier);
        let last = comparisons.last();
        assert forall|j: int| 0 <= j < last.rows.len() implies !same_record(
            before.rows[i].columns,
            #[trigger] last.rows[j].columns,
            identifier_pairs(before.comparison_pairs),
            before.recon_config,
        ) by {
            assert(comparisons[comparisons.len() - 1] == last);
        }
        lemma_unmatched_row_unchanged(before, last, i);
    }
}

/// A successful row stays successful, and unchanged, through any further
/// calls whose comparison chunks hold no row of the same record.
pub proof fn lemma_successful_row_stays_successful(
    primary: FileChunkView,
    comparisons: Seq<FileChunkView>,
    i: int,
)
    requires
        0 <= i < primary.rows.len(),
        primary.rows[i].verdict == ReconStatus::Successful,
        forall|t: int, j: int|
            0 <= t < comparisons.len() && 0 <= j < comparisons[t].rows.len() ==> !same_record(
                primary.rows[i].columns,
                #[trigger] comparisons[t].rows[j].columns,
                identifier_pairs(primary.comparison_pairs),
                primary.recon_config,
            ),
    ensures
        reconciled_in_turn(primary, comparisons).rows[i] == primary.rows[i],
        reconciled_in_turn(primary, comparisons).rows[i].verdict == ReconStatus::Successful,
{
    lemma_unmatched_row_unchanged_in_turn(primary, comparisons, i);
}

} // verus!
