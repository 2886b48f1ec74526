use vstd::prelude::*;

verus! {

/// Messages per second for `count` messages in `elapsed_ms` milliseconds,
/// rounded down; an elapsed time of zero counts as one millisecond.
pub open spec fn rate_spec(count: nat, elapsed_ms: nat) -> nat {
    (count * 1000) / if elapsed_ms == 0 {
        1nat
    } else {
        elapsed_ms
    }
}

/// Computes the rate in messages per second.
pub fn throughput(count: usize, elapsed_ms: u128) -> (r: u128)
    ensures
        r == rate_spec(count as nat, elapsed_ms as nat),
{
    let denominator: u128 = if elapsed_ms == 0 {
        1
    } else {
        elapsed_ms
    };
    let wide: u128 = count as u128;
    assert(wide * 1000 <= u128::MAX) by (nonlinear_arith)
        requires
            wide <= usize::MAX,
            usize::MAX <= u64::MAX,
    ;
    (wide * 1000) / denominator
}

/// The outcome of one run: who ran it, how many messages were acknowledged,
/// their size, how long it took and the derived rate.
pub struct ThroughputReport {
    pub identity: String,
    pub message_count: usize,
    pub payload_size: usize,
    pub elapsed_ms: u128,
    pub rate: u128,
}

impl ThroughputReport {
    pub fn new(identity: String, message_count: usize, payload_size: usize, elapsed_ms: u128) -> (r:
        ThroughputReport)
        ensures
            r.identity@ == identity@,
            r.message_count == message_count,
            r.payload_size == payload_size,
            r.elapsed_ms == elapsed_ms,
            r.rate == rate_spec(message_count as nat, elapsed_ms as nat),
    {
        let rate = throughput(message_count, elapsed_ms);
        ThroughputReport { identity, message_count, payload_size, elapsed_ms, rate }
    }
}

} // verus!
