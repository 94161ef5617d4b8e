//! Result aggregation and the final run report.
//!
//! The orchestrator collects one result per worker; workers that never got a
//! connection still contribute a zero result. This module sums those counts
//! and turns them, together with the run duration, into the numbers the
//! report prints. To keep the success rate in integer arithmetic it is
//! carried in hundredths of a percent.

use vstd::prelude::*;
use crate::worker::WorkerResult;

verus! {

/// The summed counters of a whole run. Sums saturate at the top of the
/// counter range instead of wrapping; `cap_u64` in the contracts says
/// exactly when that happens.
pub struct RunTotals {
    pub sent: u64,
    pub received: u64,
}

/// The numbers a finished run reports.
pub struct RunReport {
    pub total_sent: u64,
    pub total_received: u64,
    pub requests_per_sec: u64,
    pub responses_per_sec: u64,
    /// `None` when nothing was sent: the rate is undefined then, not zero.
    pub success_rate_hundredths: Option<u128>,
}

/// The sum of the sent counters of a sequence of results.
pub open spec fn sum_sent(rs: Seq<WorkerResult>) -> int
    decreases rs.len(),
{
    if rs.len() == 0 {
        0
    } else {
        sum_sent(rs.drop_last()) + rs.last().sent
    }
}

/// The sum of the received counters of a sequence of results.
pub open spec fn sum_received(rs: Seq<WorkerResult>) -> int
    decreases rs.len(),
{
    if rs.len() == 0 {
        0
    } else {
        sum_received(rs.drop_last()) + rs.last().received
    }
}

/// A sum as a saturating 64-bit counter holds it.
pub open spec fn cap_u64(n: int) -> int {
    if n <= u64::MAX {
        n
    } else {
        u64::MAX as int
    }
}

/// The success rate in hundredths of a percent, and when it is defined:
/// only a run that sent at least one request has one.
pub open spec fn spec_success_rate_hundredths(sent: u64, received: u64) -> Option<u128> {
    if sent > 0 {
        Some(((received as int) * 10000 / (sent as int)) as u128)
    } else {
        None
    }
}

/// Adds two counters, staying put at the top of the range instead of
/// wrapping.
fn saturating_add_u64(a: u64, b: u64) -> (r: u64)
    ensures
        r == cap_u64(a + b),
{
    if a <= u64::MAX - b {
        a + b
    } else {
        u64::MAX
    }
}

/// Sums the per-worker counts of a run. The totals are exact whenever they
/// fit a 64-bit counter and saturate otherwise.
pub fn aggregate(results: &Vec<WorkerResult>) -> (t: RunTotals)
    ensures
        t.sent == cap_u64(sum_sent(results@)),
        t.received == cap_u64(sum_received(results@)),
{
    let mut sent: u64 = 0;
    let mut received: u64 = 0;
    let mut i: usize = 0;
    while i < results.len()
        invariant
            i <= results@.len(),
            sent == cap_u64(sum_sent(results@.take(i as int))),
            received == cap_u64(sum_received(results@.take(i as int))),
        decreases results@.len() - i,
    {
        let r = results[i];
        proof {
            lemma_sum_nonneg(results@.take(i as int));
            assert(results@.take(i as int + 1).drop_last() =~= results@.take(i as int));
            assert(results@.take(i as int + 1).last() == results@[i as int]);
        }
        sent = saturating_add_u64(sent, r.sent);
        received = saturating_add_u64(received, r.received);
        i += 1;
    }
    proof {
        assert(results@.take(results@.len() as int) =~= results@);
    }
    RunTotals { sent, received }
}

/// The success rate of a run, in hundredths of a percent, or `None` when
/// nothing was sent. With at most as many responses as requests the value
/// stays at or below 10000, one hundred percent.
pub fn success_rate_hundredths(sent: u64, received: u64) -> (r: Option<u128>)
    ensures
        r == spec_success_rate_hundredths(sent, received),
        received <= sent && sent > 0 ==> (r matches Some(v) && v <= 10000),
{
    if sent > 0 {
        let scaled: u128 = (received as u128) * 10000;
        let rate: u128 = scaled / (sent as u128);
        proof {
            if received <= sent {
                lemma_rate_bounded(sent, received);
            }
        }
        Some(rate)
    } else {
        None
    }
}

/// The whole report of a finished run: saturating totals, the two
/// per-second rates, and the success rate when it is defined.
pub fn summarize(results: &Vec<WorkerResult>, duration: u64) -> (rep: RunReport)
    requires
        duration > 0,
    ensures
        rep.total_sent == cap_u64(sum_sent(results@)),
        rep.total_received == cap_u64(sum_received(results@)),
        rep.requests_per_sec == rep.total_sent as int / duration as int,
        rep.responses_per_sec == rep.total_received as int / duration as int,
        rep.success_rate_hundredths == spec_success_rate_hundredths(
            rep.total_sent,
            rep.total_received,
        ),
{
    let totals = aggregate(results);
    let rate = success_rate_hundredths(totals.sent, totals.received);
    RunReport {
        total_sent: totals.sent,
        total_received: totals.received,
        requests_per_sec: totals.sent / duration,
        responses_per_sec: totals.received / duration,
        success_rate_hundredths: rate,
    }
}

/// Both sums of a sequence of results are non-negative.
pub proof fn lemma_sum_nonneg(rs: Seq<WorkerResult>)
    ensures
        sum_sent(rs) >= 0,
        sum_received(rs) >= 0,
    decreases rs.len(),
{
    if rs.len() > 0 {
        lemma_sum_nonneg(rs.drop_last());
    }
}

/// With at most as many responses as requests, the scaled rate stays at or
/// below one hundred percent.
proof fn lemma_rate_bounded(sent: u64, received: u64)
    requires
        0 < sent,
        received <= sent,
    ensures
        (received as int) * 10000 / (sent as int) <= 10000,
{
    assert((received as int) * 10000 <= (sent as int) * 10000) by (nonlinear_arith)
        requires
            received <= sent,
    ;
    assert((sent as int) * 10000 / (sent as int) == 10000) by (nonlinear_arith)
        requires
            0 < sent,
    ;
    assert((received as int) * 10000 / (sent as int) <= (sent as int) * 10000 / (sent as int))
        by (nonlinear_arith)
        requires
            (received as int) * 10000 <= (sent as int) * 10000 && 0 < sent,
    ;
}

/// Aggregation under total failure: when every worker reports a zero
/// result, the sums are zero, so a report over them shows zero totals and
/// no success rate.
pub proof fn lemma_all_zero_results(rs: Seq<WorkerResult>)
    requires
        forall|i: int| 0 <= i < rs.len() ==> rs[i].sent == 0 && rs[i].received == 0,
    ensures
        sum_sent(rs) == 0,
        sum_received(rs) == 0,
        spec_success_rate_hundredths(0, 0) is None,
    decreases rs.len(),
{
    if rs.len() > 0 {
        assert(rs.last() == rs[rs.len() - 1]);
        lemma_all_zero_results(rs.drop_last());
    }
}

} // verus!
