use vstd::prelude::*;

use crate::error::SniffError;

verus! {

/// The reconciled total of a dataset: a record count, and whether it was
/// estimated from a prefix sample rather than obtained by a direct scan.
#[derive(Debug, Clone, Copy, PartialEq, Eq, Structural)]
pub struct RecordEstimate {
    pub record_count: u64,
    pub estimated: bool,
}

/// The count before header and preamble adjustment: the direct scan where
/// one exists, otherwise the dataset's total byte size divided by the
/// average record length (integer division).
pub open spec fn spec_base_count(exact: Option<u64>, total_size: u64, avg_record_len: u64) -> int {
    match exact {
        Some(n) => n as int,
        None => total_size as int / avg_record_len as int,
    }
}

/// Header and preamble adjustment of a base count.  The row-counting
/// convention consumes a header row separately from the data rows, so when
/// no header row was detected one row is added back; preamble rows are
/// never part of the record count and are subtracted.
pub open spec fn spec_adjusted_count(base: int, has_header: bool, preamble_rows: u64) -> int {
    base + (if has_header { 0int } else { 1int }) - preamble_rows as int
}

/// Reconcile sampled evidence with the known or estimated total.
///
/// `exact` is the record count of a direct full scan where one was made
/// (local file, standard input, or a fully-downloaded remote body);
/// `None` means only a prefix of a remote source was retrieved, in which
/// case the count is estimated as `total_size / avg_record_len` and flagged
/// as such.  A post-adjustment count of zero (or an empty direct scan) is
/// the fatal empty-dataset failure.
pub fn estimate_record_count(
    exact: Option<u64>,
    total_size: u64,
    avg_record_len: u64,
    has_header: bool,
    preamble_rows: u64,
) -> (r: Result<RecordEstimate, SniffError>)
    requires
        exact is None ==> avg_record_len > 0,
        exact is None ==> total_size < u64::MAX,
        exact matches Some(n) ==> n < u64::MAX,
    ensures
        ({
            let adjusted = spec_adjusted_count(
                spec_base_count(exact, total_size, avg_record_len),
                has_header,
                preamble_rows,
            );
            &&& (r is Err) == (exact == Some(0u64) || adjusted <= 0)
            &&& (r matches Err(e) ==> e is EmptyDataset)
            &&& (r matches Ok(est) ==> {
                &&& est.record_count == adjusted
                &&& est.record_count >= 1
                &&& est.estimated == (exact is None)
            })
        }),
{
    let (base, estimated): (u64, bool) = match exact {
        Some(n) => {
            if n == 0 {
                return Err(SniffError::EmptyDataset);
            }
            (n, false)
        },
        None => {
            proof {
                vstd::arithmetic::div_mod::lemma_div_is_ordered(
                    total_size as int,
                    total_size as int,
                    avg_record_len as int,
                );
                vstd::arithmetic::div_mod::lemma_div_nonincreasing(
                    total_size as int,
                    avg_record_len as int,
                );
                vstd::arithmetic::div_mod::lemma_div_pos_is_pos(
                    total_size as int,
                    avg_record_len as int,
                );
            }
            (total_size / avg_record_len, true)
        },
    };
    let with_header: u64 = if has_header {
        base
    } else {
        base + 1
    };
    if with_header <= preamble_rows {
        return Err(SniffError::EmptyDataset);
    }
    Ok(RecordEstimate { record_count: with_header - preamble_rows, estimated })
}

/// For a remote source of which only a prefix was retrieved — so no direct
/// scan exists — the reconciled count is an estimate: the dataset's total
/// byte size divided by the average record length (integer division), with
/// the header and preamble adjustment applied.  The estimator returns
/// exactly this value, flagged estimated, whenever it is positive.
pub proof fn lemma_remote_prefix_estimate(
    total_size: u64,
    avg_record_len: u64,
    has_header: bool,
    preamble_rows: u64,
)
    requires
        avg_record_len > 0,
    ensures
        spec_adjusted_count(
            spec_base_count(None, total_size, avg_record_len),
            has_header,
            preamble_rows,
        ) == total_size as int / avg_record_len as int + (if has_header {
            0int
        } else {
            1int
        }) - preamble_rows,
{
}

/// For a fully-local dataset whose every physical row was scanned, the
/// adjusted record count equals the number of data rows present: all
/// physical rows, less the header row when one is present, less the
/// preamble rows.  The direct scan reports one row fewer than are
/// physically present, because the row counter consumes the first row as a
/// header whether or not one was detected.
pub proof fn lemma_local_scan_counts_data_rows(
    physical_rows: u64,
    has_header: bool,
    preamble_rows: u64,
)
    requires
        physical_rows >= 1,
    ensures
        spec_adjusted_count((physical_rows - 1) as int, has_header, preamble_rows)
            == physical_rows - (if has_header { 1int } else { 0int }) - preamble_rows,
{
}

} // verus!
