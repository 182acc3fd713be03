use vstd::prelude::*;

use crate::download::NEWLINE;
use crate::error::SniffError;

verus! {

/// What the flexible, ragged-row-tolerant reader makes of a byte store: its
/// record sequence, each record a sequence of byte fields, with no row
/// treated as a header — or nothing, when the bytes cannot be read as
/// records at all.
pub uninterp spec fn parsed_records(bytes: Seq<u8>, delimiter: Option<u8>) -> Option<
    Seq<Seq<Seq<u8>>>,
>;

/// The byte store that the strict writer produces for a record sequence,
/// quoting every non-numeric field.
pub uninterp spec fn encoded_records(records: Seq<Seq<Seq<u8>>>) -> Seq<u8>;

/// Relies on csv::ReaderBuilder / Reader::into_byte_records: a flexible
/// (ragged-row-tolerant) parse of a byte buffer into byte records, with no
/// row treated as a header and the default delimiter unless one is given.
#[verifier::external_body]
fn parse_records_raw(bytes: &Vec<u8>, delimiter: Option<u8>) -> (r: Result<
    Vec<Vec<Vec<u8>>>,
    String,
>)
    ensures
        r matches Ok(v) ==> parsed_records(bytes@, delimiter) == Some(v.deep_view()),
        r matches Err(_) ==> parsed_records(bytes@, delimiter) is None,
{
    let mut b = csv::ReaderBuilder::new();
    b.has_headers(false).flexible(true);
    if let Some(d) = delimiter {
        b.delimiter(d);
    }
    let mut out: Vec<Vec<Vec<u8>>> = Vec::new();
    for rec in b.from_reader(bytes.as_slice()).into_byte_records() {
        match rec {
            Ok(r) => out.push(r.iter().map(|f| f.to_vec()).collect()),
            Err(e) => return Err(e.to_string()),
        }
    }
    Ok(out)
}

/// Relies on csv::WriterBuilder / Writer::write_record: encodes records
/// into bytes with the non-numeric quoting convention, tolerating varying
/// field counts.  The encoding always succeeds: the sink is a byte vector,
/// which cannot fail on write or flush, and the flexible writer suppresses
/// the unequal-length error, the only structural one.
#[verifier::external_body]
fn encode_records_raw(records: &Vec<Vec<Vec<u8>>>) -> (r: Result<Vec<u8>, String>)
    ensures
        r is Ok,
        r matches Ok(v) ==> v@ == encoded_records(records.deep_view()),
{
    let mut w = csv::WriterBuilder::new().quote_style(csv::QuoteStyle::NonNumeric).flexible(
        true,
    ).from_writer(Vec::new());
    for rec in records {
        if let Err(e) = w.write_record(rec) {
            return Err(e.to_string());
        }
    }
    w.into_inner().map_err(|e| e.to_string())
}

/// Whether the final byte of a store is a newline.  When it is not, the
/// store may end in the middle of a record that the transport cut off.
pub open spec fn spec_ends_with_newline(bytes: Seq<u8>) -> bool {
    bytes.len() > 0 && bytes.last() == NEWLINE
}

pub fn ends_with_newline(bytes: &Vec<u8>) -> (r: bool)
    ensures
        r == spec_ends_with_newline(bytes@),
{
    let len = bytes.len();
    len > 0 && bytes[len - 1] == NEWLINE
}

/// Of `len` parsed records, those that are certainly not cut off: all of
/// them when the store ends on a newline, else all but the trailing one.
pub open spec fn spec_complete_records(len: int, ends_with_newline: bool) -> int {
    if ends_with_newline {
        len
    } else if len > 0 {
        len - 1
    } else {
        0
    }
}

/// How many records the normalized sample keeps: the header row plus at
/// most `max_data_rows` data rows, and never more than the complete
/// records available.
pub open spec fn spec_kept_records(len: int, max_data_rows: u64, ends_with_newline: bool) -> int {
    let avail = spec_complete_records(len, ends_with_newline);
    if avail <= max_data_rows {
        avail
    } else {
        max_data_rows + 1
    }
}

/// A record sequence truncated on the outside is truncated record for
/// record in the deep view as well.
proof fn lemma_deep_view_subrange(v: Vec<Vec<Vec<u8>>>, w: Vec<Vec<Vec<u8>>>, k: int)
    requires
        0 <= k <= v@.len(),
        w@ == v@.subrange(0, k),
    ensures
        w.deep_view() == v.deep_view().subrange(0, k),
{
    assert forall|i: int| 0 <= i < k implies w.deep_view()[i] == v.deep_view().subrange(0, k)[i]
    by {
        assert(w@[i] == v@[i]);
    }
    assert(w.deep_view() =~= v.deep_view().subrange(0, k));
}

/// Truncate a parsed record sequence to the normalized sample: the header
/// row plus at most `max_data_rows` data rows, never keeping a record that
/// the transport may have cut off mid-line.
pub fn keep_sample_records(
    records: &mut Vec<Vec<Vec<u8>>>,
    max_data_rows: u64,
    ends_with_newline: bool,
)
    ensures
        final(records)@ == old(records)@.subrange(
            0,
            spec_kept_records(old(records)@.len() as int, max_data_rows, ends_with_newline),
        ),
        final(records).deep_view() == old(records).deep_view().subrange(
            0,
            spec_kept_records(old(records)@.len() as int, max_data_rows, ends_with_newline),
        ),
{
    let ghost orig = *records;
    let len: usize = records.len();
    let avail: usize = if ends_with_newline {
        len
    } else if len > 0 {
        len - 1
    } else {
        0
    };
    let keep: usize = if avail as u64 <= max_data_rows {
        avail
    } else {
        assert(max_data_rows < avail as u64);
        (max_data_rows as usize) + 1
    };
    records.truncate(keep);
    proof {
        lemma_deep_view_subrange(
            orig,
            *records,
            spec_kept_records(orig@.len() as int, max_data_rows, ends_with_newline),
        );
    }
}

/// A store that does not end on a newline may have had its trailing record
/// cut off mid-line; the normalized sample never includes it: fewer records
/// are kept than were parsed, whatever the requested row count.
pub proof fn lemma_no_truncated_trailing_row(len: int, max_data_rows: u64)
    requires
        len > 0,
    ensures
        spec_kept_records(len, max_data_rows, false) <= len - 1,
{
}

/// Re-normalize a raw (possibly cut-off) byte store into a well-formed
/// sample: parse it tolerantly, keep the header row plus at most
/// `max_data_rows` complete data rows, and re-encode them with the strict
/// quoting convention.  Returns the normalized bytes and the number of data
/// rows they hold.
pub fn normalize_sample(bytes: &Vec<u8>, delimiter: Option<u8>, max_data_rows: u64) -> (r: Result<
    (Vec<u8>, u64),
    SniffError,
>)
    ensures
        r matches Ok(p) ==> (parsed_records(bytes@, delimiter) matches Some(rs) && {
            let keep = spec_kept_records(
                rs.len() as int,
                max_data_rows,
                spec_ends_with_newline(bytes@),
            );
            &&& p.0@ == encoded_records(rs.subrange(0, keep))
            &&& p.1 == (if keep > 0 {
                keep - 1
            } else {
                0int
            })
        }),
        (r is Err) == (parsed_records(bytes@, delimiter) is None),
        r matches Err(e) ==> e is Io,
{
    let mut records = match parse_records_raw(bytes, delimiter) {
        Ok(v) => v,
        Err(e) => {
            return Err(SniffError::Io(e));
        },
    };
    let ends = ends_with_newline(bytes);
    keep_sample_records(&mut records, max_data_rows, ends);
    let kept: usize = records.len();
    let data_rows: u64 = if kept > 0 {
        (kept - 1) as u64
    } else {
        0
    };
    match encode_records_raw(&records) {
        Ok(out) => Ok((out, data_rows)),
        Err(e) => Err(SniffError::Io(e)),
    }
}

/// Count the data rows of a byte store by a direct scan: every parsed
/// record after the first, header, row.
pub fn count_data_rows(bytes: &Vec<u8>, delimiter: Option<u8>) -> (r: Result<u64, SniffError>)
    ensures
        r matches Ok(n) ==> (parsed_records(bytes@, delimiter) matches Some(rs) && n == (
        if rs.len() > 0 {
            rs.len() - 1
        } else {
            0int
        })),
        (r is Err) == (parsed_records(bytes@, delimiter) is None),
        r matches Err(e) ==> e is Io,
{
    match parse_records_raw(bytes, delimiter) {
        Ok(v) => {
            let len = v.len();
            if len > 0 {
                Ok((len - 1) as u64)
            } else {
                Ok(0)
            }
        },
        Err(e) => Err(SniffError::Io(e)),
    }
}

} // verus!
