use vstd::prelude::*;

use crate::error::SniffError;

verus! {

/// Millionths of a unit in one whole unit of the sample-size specification.
pub const MILLIONTHS_PER_UNIT: u64 = 1_000_000;

/// Half of a unit, used for rounding to the nearest whole row.
pub const HALF_UNIT_MILLIONTHS: u64 = 500_000;

/// Minimum row count enforced for numerically stable inference.
pub const SAMPLE_FLOOR_ROWS: u64 = 20;

/// A sample-size specification exactly as the caller handed it in: a sign
/// and a magnitude in millionths of a unit (so a requested size of 0.25
/// arrives as `millionths == 250_000`, and 1000 as `millionths ==
/// 1_000_000_000`).
#[derive(Debug, Clone, Copy)]
pub struct SampleSpec {
    /// Whether the requested size was negative.
    pub negative: bool,
    /// The magnitude of the requested size, in millionths of a unit.
    pub millionths: u64,
}

/// How much of the dataset the caller asked to examine: the whole of it, a
/// fraction of its rows (in millionths, strictly between zero and one unit),
/// or an absolute row count.
#[derive(Debug, Clone, Copy, PartialEq, Eq, Structural)]
pub enum SampleMode {
    All,
    Fraction(u64),
    Rows(u64),
}

/// Validity of a resolved sample mode: a fraction is strictly between zero
/// and one whole unit.
pub open spec fn mode_wf(m: SampleMode) -> bool {
    m matches SampleMode::Fraction(f) ==> 0 < f < MILLIONTHS_PER_UNIT
}

/// A magnitude in millionths rounded to the nearest whole unit.
pub open spec fn spec_rounded_units(millionths: u64) -> u64 {
    (((millionths + HALF_UNIT_MILLIONTHS) as int) / (MILLIONTHS_PER_UNIT as int)) as u64
}

/// The mode a non-negative specification resolves to: zero means the whole
/// dataset, a magnitude below one unit is a fraction of the rows, and
/// anything else is an absolute row count, rounded to the nearest row.
pub open spec fn spec_mode_of(s: SampleSpec) -> SampleMode {
    if s.millionths == 0 {
        SampleMode::All
    } else if s.millionths < MILLIONTHS_PER_UNIT {
        SampleMode::Fraction(s.millionths)
    } else {
        SampleMode::Rows(spec_rounded_units(s.millionths))
    }
}

/// Validate and classify the caller's sample-size specification.
///
/// A negative specification is invalid input and is rejected here, before
/// any acquisition is attempted; every non-negative specification resolves
/// to a well-formed mode.
pub fn resolve_sample_spec(s: &SampleSpec) -> (r: Result<SampleMode, SniffError>)
    ensures
        (r is Err) == s.negative,
        r matches Err(e) ==> e is Input,
        r matches Ok(m) ==> m == spec_mode_of(*s) && mode_wf(m),
{
    if s.negative {
        Err(SniffError::Input)
    } else if s.millionths == 0 {
        Ok(SampleMode::All)
    } else if s.millionths < MILLIONTHS_PER_UNIT {
        Ok(SampleMode::Fraction(s.millionths))
    } else {
        let wide: u128 = (s.millionths as u128 + HALF_UNIT_MILLIONTHS as u128)
            / MILLIONTHS_PER_UNIT as u128;
        proof {
            let num = (s.millionths + HALF_UNIT_MILLIONTHS) as int;
            let unit = MILLIONTHS_PER_UNIT as int;
            assert(num < unit * (s.millionths + 1)) by (nonlinear_arith)
                requires
                    num == s.millionths + HALF_UNIT_MILLIONTHS,
                    unit == MILLIONTHS_PER_UNIT,
            ;
            vstd::arithmetic::div_mod::lemma_multiply_divide_lt(num, unit, s.millionths + 1 as int);
            vstd::arithmetic::div_mod::lemma_div_is_ordered(0, num, unit);
        }
        Ok(SampleMode::Rows(wide as u64))
    }
}

/// The fraction of a scanned row count that a fractional specification
/// selects, rounded to the nearest row.
pub open spec fn spec_fraction_rows(millionths: u64, n_rows: u64) -> u64 {
    (((millionths * n_rows + HALF_UNIT_MILLIONTHS) as int) / (MILLIONTHS_PER_UNIT as int)) as u64
}

/// Apply a fractional specification to a scanned row count.
///
/// The result never exceeds the row count itself.
pub fn fraction_rows(millionths: u64, n_rows: u64) -> (r: u64)
    requires
        millionths < MILLIONTHS_PER_UNIT,
    ensures
        r == spec_fraction_rows(millionths, n_rows),
        r <= n_rows,
{
    proof {
        vstd::arithmetic::mul::lemma_mul_upper_bound(
            millionths as int,
            u64::MAX as int,
            n_rows as int,
            u64::MAX as int,
        );
    }
    let wide: u128 = (millionths as u128 * n_rows as u128 + HALF_UNIT_MILLIONTHS as u128)
        / MILLIONTHS_PER_UNIT as u128;
    proof {
        lemma_fraction_rows_bound(millionths, n_rows);
    }
    wide as u64
}

/// The rounded fraction of a row count never exceeds the row count, as long
/// as the fraction is below one whole unit.
proof fn lemma_fraction_rows_bound(millionths: u64, n_rows: u64)
    requires
        millionths < MILLIONTHS_PER_UNIT,
    ensures
        0 <= (millionths * n_rows + HALF_UNIT_MILLIONTHS) as int / (MILLIONTHS_PER_UNIT as int)
            <= n_rows,
{
    let num = (millionths * n_rows + HALF_UNIT_MILLIONTHS) as int;
    let unit = MILLIONTHS_PER_UNIT as int;
    assert(num < unit * (n_rows + 1)) by (nonlinear_arith)
        requires
            millionths < MILLIONTHS_PER_UNIT,
            num == millionths * n_rows + HALF_UNIT_MILLIONTHS,
            unit == MILLIONTHS_PER_UNIT,
    ;
    vstd::arithmetic::div_mod::lemma_multiply_divide_lt(num, unit, n_rows + 1);
    vstd::arithmetic::div_mod::lemma_div_is_ordered(0, num, unit);
}

/// The effective number of rows the inferencer will examine for a mode, on a
/// source whose rows were all scanned: the whole dataset for `All`, else the
/// resolved row count raised to the 20-row floor.
pub open spec fn spec_effective_rows(m: SampleMode, n_rows: u64) -> Option<u64> {
    match m {
        SampleMode::All => None,
        SampleMode::Fraction(f) => Some(
            if spec_fraction_rows(f, n_rows) > SAMPLE_FLOOR_ROWS {
                spec_fraction_rows(f, n_rows)
            } else {
                SAMPLE_FLOOR_ROWS
            },
        ),
        SampleMode::Rows(r) => Some(
            if r > SAMPLE_FLOOR_ROWS {
                r
            } else {
                SAMPLE_FLOOR_ROWS
            },
        ),
    }
}

/// Resolve a mode against a scanned row count: `None` means every available
/// row is examined, `Some(n)` means the first `n` rows are, with the 20-row
/// floor applied to stabilise inference on small requests.
pub fn effective_sample_rows(m: &SampleMode, n_rows: u64) -> (r: Option<u64>)
    requires
        mode_wf(*m),
    ensures
        r == spec_effective_rows(*m, n_rows),
{
    match m {
        SampleMode::All => None,
        SampleMode::Fraction(f) => {
            let rows = fraction_rows(*f, n_rows);
            if rows > SAMPLE_FLOOR_ROWS {
                Some(rows)
            } else {
                Some(SAMPLE_FLOOR_ROWS)
            }
        },
        SampleMode::Rows(r) => {
            if *r > SAMPLE_FLOOR_ROWS {
                Some(*r)
            } else {
                Some(SAMPLE_FLOOR_ROWS)
            }
        },
    }
}

/// The line threshold that bounds a streaming remote download: an absolute
/// row count is used directly; zero (the whole dataset) is unbounded; a
/// fraction with a known total size selects `(total_size / 100) * fraction`
/// lines, under the deliberate approximation that a line is 100 bytes wide.
/// A fraction of an unknown total is unbounded.
pub open spec fn spec_line_threshold(m: SampleMode, total_size: Option<u64>) -> Option<u64> {
    match m {
        SampleMode::All => None,
        SampleMode::Rows(r) => Some(r),
        SampleMode::Fraction(f) => match total_size {
            Some(t) => Some(((((t as int) / 100) * f) / (MILLIONTHS_PER_UNIT as int)) as u64),
            None => None,
        },
    }
}

/// Translate the sample mode into a target line threshold for a streaming
/// remote download; `None` asks for the entire body.
pub fn remote_line_threshold(m: &SampleMode, total_size: Option<u64>) -> (r: Option<u64>)
    requires
        mode_wf(*m),
    ensures
        r == spec_line_threshold(*m, total_size),
{
    match m {
        SampleMode::All => None,
        SampleMode::Rows(r) => Some(*r),
        SampleMode::Fraction(f) => match total_size {
            Some(t) => {
                let hundredth: u64 = t / 100;
                proof {
                    vstd::arithmetic::mul::lemma_mul_upper_bound(
                        hundredth as int,
                        u64::MAX as int,
                        *f as int,
                        u64::MAX as int,
                    );
                }
                let wide: u128 = (hundredth as u128 * *f as u128) / MILLIONTHS_PER_UNIT as u128;
                proof {
                    lemma_fraction_rows_bound_noround(*f, hundredth);
                }
                Some(wide as u64)
            },
            None => None,
        },
    }
}

/// A fraction below one unit of any count stays at or below the count.
proof fn lemma_fraction_rows_bound_noround(millionths: u64, n: u64)
    requires
        millionths < MILLIONTHS_PER_UNIT,
    ensures
        0 <= (n * millionths) as int / (MILLIONTHS_PER_UNIT as int) <= n,
{
    let num = (n * millionths) as int;
    let unit = MILLIONTHS_PER_UNIT as int;
    assert(num < unit * (n + 1)) by (nonlinear_arith)
        requires
            millionths < MILLIONTHS_PER_UNIT,
            num == n * millionths,
            unit == MILLIONTHS_PER_UNIT,
    ;
    vstd::arithmetic::div_mod::lemma_multiply_divide_lt(num, unit, n + 1);
    vstd::arithmetic::div_mod::lemma_div_is_ordered(0, num, unit);
}

} // verus!
