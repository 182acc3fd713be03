use vstd::prelude::*;

verus! {

/// The newline byte.
pub const NEWLINE: u8 = 10;

/// The number of newline bytes in a byte sequence.
pub open spec fn spec_newline_count(s: Seq<u8>) -> int
    decreases s.len(),
{
    if s.len() == 0 {
        0
    } else {
        spec_newline_count(s.drop_last()) + (if s.last() == NEWLINE {
            1int
        } else {
            0int
        })
    }
}

/// A sequence holds at least zero and at most its length in newlines.
pub proof fn lemma_newline_count_bounds(s: Seq<u8>)
    ensures
        0 <= spec_newline_count(s) <= s.len(),
    decreases s.len(),
{
    if s.len() > 0 {
        lemma_newline_count_bounds(s.drop_last());
    }
}

/// Count the newline bytes in one chunk.
pub fn count_newlines(chunk: &[u8]) -> (n: usize)
    ensures
        n == spec_newline_count(chunk@),
{
    let mut n: usize = 0;
    let mut i: usize = 0;
    while i < chunk.len()
        invariant
            i <= chunk@.len(),
            n <= i,
            n == spec_newline_count(chunk@.take(i as int)),
        decreases chunk@.len() - i,
    {
        proof {
            assert(chunk@.take(i + 1int).drop_last() =~= chunk@.take(i as int));
            assert(chunk@.take(i + 1int).last() == chunk@[i as int]);
        }
        if chunk[i] == NEWLINE {
            n = n + 1;
        }
        i = i + 1;
    }
    proof {
        assert(chunk@.take(chunk@.len() as int) =~= chunk@);
    }
    n
}

/// Addition on a running 64-bit total that stops at the top of the range
/// instead of wrapping.
pub open spec fn spec_sat_add(a: u64, b: int) -> u64 {
    if a + b > u64::MAX {
        u64::MAX
    } else {
        (a + b) as u64
    }
}

/// The received-bytes total after one chunk: the running total plus the
/// chunk's length, capped at the dataset's total size where that is known.
pub open spec fn spec_bytes_after(bytes: u64, chunk_len: int, total_size: Option<u64>) -> u64 {
    let grown = spec_sat_add(bytes, chunk_len);
    match total_size {
        Some(t) => if grown > t {
            t
        } else {
            grown
        },
        None => grown,
    }
}

/// Running totals of a streaming download, folded over each received chunk.
///
/// The fold is explicit so that the early-termination condition — more
/// lines received than the target threshold — is a checked predicate of
/// this state alone, independent of how the transport delivers chunks.
#[derive(Debug, Clone, Copy, PartialEq, Eq, Structural)]
pub struct DownloadProgress {
    /// Bytes received so far, capped at the total size where known.
    pub bytes_received: u64,
    /// Physical lines received so far: the newline bytes seen.
    pub lines_received: u64,
}

impl DownloadProgress {
    /// Totals before anything was received.
    pub fn new() -> (r: DownloadProgress)
        ensures
            r.bytes_received == 0,
            r.lines_received == 0,
    {
        DownloadProgress { bytes_received: 0, lines_received: 0 }
    }

    /// Fold one received chunk into the running totals.
    pub fn ingest_chunk(&mut self, chunk: &[u8], total_size: Option<u64>)
        ensures
            final(self).bytes_received == spec_bytes_after(
                old(self).bytes_received,
                chunk@.len() as int,
                total_size,
            ),
            final(self).lines_received == spec_sat_add(
                old(self).lines_received,
                spec_newline_count(chunk@),
            ),
    {
        let len64: u64 = chunk.len() as u64;
        let grown: u64 = if self.bytes_received <= u64::MAX - len64 {
            self.bytes_received + len64
        } else {
            u64::MAX
        };
        self.bytes_received = match total_size {
            Some(t) => if grown > t {
                t
            } else {
                grown
            },
            None => grown,
        };
        let lines: usize = count_newlines(chunk);
        proof {
            lemma_newline_count_bounds(chunk@);
        }
        let lines64: u64 = lines as u64;
        self.lines_received = if self.lines_received <= u64::MAX - lines64 {
            self.lines_received + lines64
        } else {
            u64::MAX
        };
    }

    /// The per-chunk exit predicate of the download loop: stop as soon as
    /// more lines than the target threshold have been received.  An absent
    /// threshold means the entire body is wanted, so the stream is never
    /// cut short.
    pub fn should_stop(&self, threshold: Option<u64>) -> (r: bool)
        ensures
            r == (threshold matches Some(t) && self.lines_received > t),
    {
        match threshold {
            Some(t) => self.lines_received > t,
            None => false,
        }
    }

    /// The received lines that count as data lines: one line — the header —
    /// is discounted, except when nothing was received at all, where
    /// discounting would under-count a stream that ended before any
    /// newline was observed.
    pub fn data_line_count(&self) -> (r: u64)
        ensures
            r == (if self.lines_received == 0 {
                0int
            } else {
                self.lines_received - 1
            }),
    {
        if self.lines_received == 0 {
            0
        } else {
            self.lines_received - 1
        }
    }
}

} // verus!
