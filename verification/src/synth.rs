use vstd::prelude::*;

use crate::estimate::RecordEstimate;
use crate::sample::{
    spec_effective_rows, spec_fraction_rows, mode_wf, SampleMode, MILLIONTHS_PER_UNIT,
    SAMPLE_FLOOR_ROWS,
};
use crate::sniff::{DialectMetadata, Field, Metadata};

verus! {

/// The one immutable result of an invocation: provenance, dialect, schema
/// and quantities, constructed once at the very end and never mutated.
#[derive(Debug, Clone)]
pub struct SniffResult {
    /// How the source was designated (path, URL, or standard input).
    pub path: String,
    /// When the inference was made, as the caller renders time.
    pub timestamp: String,
    pub dialect: DialectMetadata,
    /// The per-column schema, in column order.
    pub schema: Vec<Field>,
    /// Bytes actually retrieved.
    pub retrieved_size: u64,
    /// Bytes of the full dataset (the retrieved bytes where no total was
    /// reported, since the whole body was then downloaded).
    pub file_size: u64,
    /// Rows actually examined by the inferencer, never above the count.
    pub sampled_records: u64,
    /// Whether the record count is an estimate from a prefix sample.
    pub estimated: bool,
    /// The exact or estimated total record count; at least one.
    pub record_count: u64,
    /// Average record length over the sampled rows, in bytes.
    pub avg_record_len: usize,
}

/// Well-formedness of a result: a successful invocation never reports an
/// empty dataset, and never claims to have sampled more records than exist.
pub open spec fn result_wf(r: SniffResult) -> bool {
    &&& r.record_count >= 1
    &&& r.sampled_records <= r.record_count
}

/// The reported sampled-record quantity: the rows examined, clamped to the
/// (possibly estimated) record count.
pub open spec fn spec_sampled_records(examined: u64, record_count: u64) -> u64 {
    if examined > record_count {
        record_count
    } else {
        examined
    }
}

/// The rows the inferencer examined: a remote prefix examines exactly the
/// rows that were downloaded; a direct scan examines every record for a
/// whole-dataset request, else the effective (floored) sample size.
pub open spec fn spec_examined_records(
    mode: SampleMode,
    n_rows: u64,
    downloaded_records: Option<u64>,
    record_count: u64,
) -> u64 {
    match downloaded_records {
        Some(d) => d,
        None => match spec_effective_rows(mode, n_rows) {
            None => record_count,
            Some(e) => e,
        },
    }
}

pub fn examined_records(
    mode: &SampleMode,
    n_rows: u64,
    downloaded_records: Option<u64>,
    record_count: u64,
) -> (r: u64)
    requires
        mode_wf(*mode),
    ensures
        r == spec_examined_records(*mode, n_rows, downloaded_records, record_count),
{
    match downloaded_records {
        Some(d) => d,
        None => match crate::sample::effective_sample_rows(mode, n_rows) {
            None => record_count,
            Some(e) => e,
        },
    }
}

/// Merge provenance, the inferred metadata, and the reconciled count into
/// the final result.  The sampled-record quantity is clamped to the count;
/// everything else is carried over unchanged.
pub fn synthesize(
    path: String,
    timestamp: String,
    md: Metadata,
    retrieved_size: u64,
    total_size: Option<u64>,
    est: RecordEstimate,
    examined: u64,
) -> (r: SniffResult)
    requires
        est.record_count >= 1,
    ensures
        result_wf(r),
        r.path == path,
        r.timestamp == timestamp,
        r.dialect == md.dialect,
        r.schema == md.schema,
        r.retrieved_size == retrieved_size,
        r.file_size == (match total_size {
            Some(t) => t,
            None => retrieved_size,
        }),
        r.sampled_records == spec_sampled_records(examined, est.record_count),
        r.estimated == est.estimated,
        r.record_count == est.record_count,
        r.avg_record_len == md.avg_record_len,
{
    let sampled: u64 = if examined > est.record_count {
        est.record_count
    } else {
        examined
    };
    let file_size: u64 = match total_size {
        Some(t) => t,
        None => retrieved_size,
    };
    SniffResult {
        path,
        timestamp,
        dialect: md.dialect,
        schema: md.schema,
        retrieved_size,
        file_size,
        sampled_records: sampled,
        estimated: est.estimated,
        record_count: est.record_count,
        avg_record_len: md.avg_record_len,
    }
}

/// Requesting the whole dataset of a directly-scanned source (a local file
/// or standard input) reports every record as sampled: the sampled count
/// equals the record count, whatever the dataset's size.  Together with the
/// estimator, which flags a direct scan as exact, the result is never
/// marked estimated.
pub proof fn lemma_sample_all_direct_scan(mode: SampleMode, n_rows: u64, record_count: u64)
    requires
        mode is All,
    ensures
        spec_sampled_records(
            spec_examined_records(mode, n_rows, None, record_count),
            record_count,
        ) == record_count,
{
}

/// A fractional specification on a directly-scanned source samples the
/// fraction of the scanned rows rounded to the nearest row, raised to the
/// 20-row floor and clamped to the record count — in particular, never
/// more records than the dataset holds.
pub proof fn lemma_fraction_sample_bounds(f: u64, n_rows: u64, record_count: u64)
    requires
        0 < f < MILLIONTHS_PER_UNIT,
    ensures
        ({
            let floored = if spec_fraction_rows(f, n_rows) > SAMPLE_FLOOR_ROWS {
                spec_fraction_rows(f, n_rows)
            } else {
                SAMPLE_FLOOR_ROWS
            };
            let s = spec_sampled_records(
                spec_examined_records(SampleMode::Fraction(f), n_rows, None, record_count),
                record_count,
            );
            &&& s <= record_count
            &&& s == (if floored > record_count {
                record_count
            } else {
                floored
            })
        }),
{
}

} // verus!
