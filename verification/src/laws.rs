//! The laws of the bounded reader, stated over whole runs of the state
//! machine: when a run succeeds, which violation it reports and on which
//! read, and that the completion callback is notified exactly once.

use vstd::prelude::*;

use crate::reader::spec_drive;
use crate::reader::spec_handle_ok;
use crate::reader::spec_sum;
use crate::reader::Error;

verus! {

/// A sum of byte counts is never negative.
pub proof fn lemma_sum_nonneg(chunks: Seq<usize>)
    ensures
        spec_sum(chunks) >= 0,
    decreases chunks.len(),
{
    if chunks.len() > 0 {
        lemma_sum_nonneg(chunks.skip(1));
    }
}

/// Summing a non-empty prefix is the first chunk plus the sum of the rest of
/// the prefix.
pub proof fn lemma_sum_cons(chunks: Seq<usize>, j: int)
    requires
        0 < j <= chunks.len(),
    ensures
        spec_sum(chunks.take(j)) == chunks[0] + spec_sum(chunks.skip(1).take(j - 1)),
{
    let prefix = chunks.take(j);
    assert(prefix[0] == chunks[0]);
    assert(prefix.skip(1) =~= chunks.skip(1).take(j - 1));
}

/// A prefix of the chunks never sums to more than all of them.
pub proof fn lemma_sum_take_le(chunks: Seq<usize>, j: int)
    requires
        0 <= j <= chunks.len(),
    ensures
        spec_sum(chunks.take(j)) <= spec_sum(chunks),
    decreases chunks.len(),
{
    if j == 0 {
        assert(chunks.take(0) =~= Seq::empty());
        lemma_sum_nonneg(chunks);
    } else {
        lemma_sum_cons(chunks, j);
        lemma_sum_take_le(chunks.skip(1), j - 1);
    }
}

/// Cumulative counts only grow: an earlier prefix never sums to more than a
/// later one.
pub proof fn lemma_sum_take_monotone(chunks: Seq<usize>, i: int, j: int)
    requires
        0 <= i <= j <= chunks.len(),
    ensures
        spec_sum(chunks.take(i)) <= spec_sum(chunks.take(j)),
{
    assert(chunks.take(j).take(i) =~= chunks.take(i));
    lemma_sum_take_le(chunks.take(j), i);
}

/// The full accounting of one run, from any reachable state: it succeeds
/// exactly when the whole payload fits under the ceiling and matches the
/// declared size if one is set; otherwise it stops at the first read whose
/// cumulative count crosses a limit — the ceiling checked first — or, short
/// payloads, at end-of-stream.
pub proof fn lemma_drive_run(
    max_length: usize,
    expected_length: Option<usize>,
    current: usize,
    chunks: Seq<usize>,
)
    requires
        current + spec_sum(chunks) <= usize::MAX,
        forall|i: int| 0 <= i < chunks.len() ==> chunks[i] > 0,
        current <= max_length,
        expected_length matches Some(x) ==> current <= x,
    ensures
        ({
            let d = spec_drive(max_length, expected_length, current, chunks);
            let total = current + spec_sum(chunks);
            &&& (d.result is Ok <==> total <= max_length && (match expected_length {
                Some(x) => total == x,
                None => true,
            }))
            &&& (d.result is Ok ==> d.consumed == chunks.len() && d.count == total)
            &&& (d.result matches Err(error) ==> {
                let prev = current + spec_sum(chunks.take(d.consumed));
                &&& 0 <= d.consumed <= chunks.len()
                &&& prev <= max_length
                &&& (expected_length matches Some(x) ==> prev <= x)
                &&& if d.consumed == chunks.len() {
                    &&& (expected_length matches Some(x) ==> total < x && error
                        == (Error::ShorterThanExpectedLength {
                        bytes_read: total as usize,
                        expected_length: x,
                    }))
                    &&& expected_length is Some
                    &&& d.count == total
                } else {
                    let next = current + spec_sum(chunks.take(d.consumed + 1));
                    &&& (next > max_length || (match expected_length {
                        Some(x) => next > x,
                        None => false,
                    }))
                    &&& error == if next > max_length {
                        Error::MaxLengthExceeded { max_length }
                    } else {
                        Error::ExceedsExpectedLength {
                            expected_length: expected_length->Some_0,
                        }
                    }
                    &&& d.count == next
                }
            })
        }),
    decreases chunks.len(),
{
    let d = spec_drive(max_length, expected_length, current, chunks);
    lemma_sum_nonneg(chunks);
    if chunks.len() == 0 {
        assert(chunks.take(0) =~= chunks);
    } else {
        let first = chunks[0];
        let tail = chunks.skip(1);
        lemma_sum_nonneg(tail);
        assert(spec_sum(chunks) == first + spec_sum(tail));
        match spec_handle_ok(current, max_length, expected_length, first) {
            Err(error) => {
                assert(d.consumed == 0);
                assert(chunks.take(0) =~= Seq::empty());
                lemma_sum_cons(chunks, 1);
                assert(tail.take(0) =~= Seq::empty());
                assert(spec_sum(chunks.take(1)) == first);
            },
            Ok(_) => {
                let next0 = (current + first) as usize;
                lemma_drive_run(max_length, expected_length, next0, tail);
                let rest = spec_drive(max_length, expected_length, next0, tail);
                assert(d.consumed == 1 + rest.consumed);
                assert(chunks.take(chunks.len() as int) =~= chunks);
                if rest.result is Err {
                    lemma_sum_cons(chunks, rest.consumed + 1);
                    if rest.consumed < tail.len() {
                        lemma_sum_cons(chunks, rest.consumed + 2);
                    } else {
                        assert(tail.take(tail.len() as int) =~= tail);
                    }
                }
            },
        }
    }
}

/// The hard-ceiling law: a payload read through a reader configured with only
/// a maximum length succeeds end-to-end exactly when its total size stays
/// within the ceiling; otherwise the run fails with `MaxLengthExceeded` on
/// the read whose cumulative count first exceeds the ceiling.
pub proof fn lemma_max_length_ceiling(max_length: usize, chunks: Seq<usize>)
    requires
        spec_sum(chunks) <= usize::MAX,
        forall|i: int| 0 <= i < chunks.len() ==> chunks[i] > 0,
    ensures
        ({
            let d = spec_drive(max_length, None, 0, chunks);
            let total = spec_sum(chunks);
            &&& (d.result is Ok <==> total <= max_length)
            &&& (d.result is Ok ==> d.count == total)
            &&& (total > max_length ==> {
                &&& d.result == Err::<(), Error>(Error::MaxLengthExceeded { max_length })
                &&& 0 <= d.consumed < chunks.len()
                &&& spec_sum(chunks.take(d.consumed + 1)) > max_length
                &&& forall|k: int|
                    0 <= k <= d.consumed ==> spec_sum(chunks.take(k)) <= max_length
                &&& d.count == spec_sum(chunks.take(d.consumed + 1))
            })
        }),
{
    lemma_sum_nonneg(chunks);
    lemma_drive_run(max_length, None, 0, chunks);
    let d = spec_drive(max_length, None, 0, chunks);
    if spec_sum(chunks) > max_length {
        assert forall|k: int| 0 <= k <= d.consumed implies spec_sum(chunks.take(k))
            <= max_length by {
            lemma_sum_take_monotone(chunks, k, d.consumed);
        }
    }
}

/// The declared-size law, for a declared size within the ceiling: a payload
/// of exactly that size always succeeds; a longer one fails with
/// `ExceedsExpectedLength` — or `MaxLengthExceeded`, checked first, if the
/// same read also crosses the ceiling; a shorter one succeeds through all
/// reads and fails only at end-of-stream with `ShorterThanExpectedLength`.
pub proof fn lemma_expected_length(max_length: usize, expected: usize, chunks: Seq<usize>)
    requires
        spec_sum(chunks) <= usize::MAX,
        forall|i: int| 0 <= i < chunks.len() ==> chunks[i] > 0,
        expected <= max_length,
    ensures
        ({
            let d = spec_drive(max_length, Some(expected), 0, chunks);
            let total = spec_sum(chunks);
            &&& (d.result is Ok <==> total == expected)
            &&& (total > expected ==> (d.result matches Err(error) && 0 <= d.consumed
                < chunks.len() && {
                let next = spec_sum(chunks.take(d.consumed + 1));
                error == if next > max_length {
                    Error::MaxLengthExceeded { max_length }
                } else {
                    Error::ExceedsExpectedLength { expected_length: expected }
                }
            }))
            &&& (total < expected ==> d.result == Err::<(), Error>(
                Error::ShorterThanExpectedLength {
                    bytes_read: total as usize,
                    expected_length: expected,
                },
            ) && d.consumed == chunks.len())
        }),
{
    lemma_sum_nonneg(chunks);
    lemma_drive_run(max_length, Some(expected), 0, chunks);
    let d = spec_drive(max_length, Some(expected), 0, chunks);
    let total = spec_sum(chunks);
    if d.result is Err {
        if d.consumed == chunks.len() {
            assert(chunks.take(chunks.len() as int) =~= chunks);
        } else {
            lemma_sum_take_le(chunks, d.consumed + 1);
        }
    }
}

/// The notification law: every run that is driven to completion — through
/// all its reads and, if no violation stops it earlier, to end-of-stream —
/// yields exactly one callback notification, carrying success exactly when
/// the run succeeded and the specific violation reason otherwise.
pub proof fn lemma_single_notification(
    max_length: usize,
    expected_length: Option<usize>,
    current: usize,
    chunks: Seq<usize>,
)
    ensures
        ({
            let d = spec_drive(max_length, expected_length, current, chunks);
            d.notices == seq![d.result]
        }),
    decreases chunks.len(),
{
    if chunks.len() > 0 {
        let first = chunks[0];
        match spec_handle_ok(current, max_length, expected_length, first) {
            Err(_) => {
            },
            Ok(_) => {
                lemma_single_notification(
                    max_length,
                    expected_length,
                    (current + first) as usize,
                    chunks.skip(1),
                );
            },
        }
    }
}

} // verus!
