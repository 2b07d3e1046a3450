//! Properties of the restart and reconnect policies and of the bounded
//! buffers that hold the core's output and realtime events.
use vstd::prelude::*;

use crate::mihomo::{backoff_delay, bounded_push, min_nat, pow2};
use crate::mihomo::realtime::{RealtimeOptions, reconnect_delay};

verus! {

proof fn lemma_pow2_monotone(a: nat, b: nat)
    requires
        a <= b,
    ensures
        pow2(a) <= pow2(b),
        pow2(a) >= 1,
    decreases b,
{
    if b > 0 && a < b {
        lemma_pow2_monotone(a, (b - 1) as nat);
    } else if b > 0 {
        lemma_pow2_monotone((a - 1) as nat, (b - 1) as nat);
    }
}

/// A later restart never waits less than an earlier one.
pub proof fn law_backoff_never_shrinks(base: u64, a: nat, b: nat)
    requires
        a <= b,
    ensures
        backoff_delay(base, a) <= backoff_delay(base, b),
{
    let ea = if a == 0 { 0 } else { min_nat((a - 1) as nat, 8) };
    let eb = if b == 0 { 0 } else { min_nat((b - 1) as nat, 8) };
    lemma_pow2_monotone(ea, eb);
    assert(base as nat * pow2(ea) <= base as nat * pow2(eb)) by (nonlinear_arith)
        requires
            pow2(ea) <= pow2(eb),
    ;
}

/// The first restart waits the base delay, and no restart waits more than
/// 256 times it.
pub proof fn law_backoff_bounds(base: u64, attempt: nat)
    ensures
        backoff_delay(base, 1) == base,
        backoff_delay(base, attempt) >= base,
        backoff_delay(base, attempt) <= base as nat * 256,
{
    assert(pow2(0) == 1) by {
        reveal_with_fuel(pow2, 1);
    }
    assert(base as nat * pow2(0) == base) by (nonlinear_arith)
        requires
            pow2(0) == 1,
    ;
    let e = if attempt == 0 { 0 } else { min_nat((attempt - 1) as nat, 8) };
    lemma_pow2_monotone(0, e);
    lemma_pow2_monotone(e, 8);
    assert(pow2(8) == 256) by {
        reveal_with_fuel(pow2, 9);
    }
    assert(base as nat * pow2(e) >= base) by (nonlinear_arith)
        requires
            pow2(e) >= 1,
    ;
    assert(base as nat * pow2(e) <= base as nat * 256) by (nonlinear_arith)
        requires
            pow2(e) <= 256,
    ;
}

/// A realtime reconnect waits no longer than the configured maximum, and
/// later attempts never wait less.
pub proof fn law_reconnect_delay_capped(options: RealtimeOptions, a: nat, b: nat)
    requires
        a <= b,
    ensures
        reconnect_delay(options, a) <= options.max_backoff_ms,
        reconnect_delay(options, a) <= reconnect_delay(options, b),
{
    law_backoff_never_shrinks(options.initial_backoff_ms, a, b);
}

/// A bounded buffer never holds more than its capacity, always ends with
/// the newest item, and keeps the items before it in order: what it holds
/// is the newest part of everything pushed.
pub proof fn law_bounded_push<T>(items: Seq<T>, capacity: nat, x: T)
    requires
        capacity > 0,
        items.len() <= capacity,
    ensures
        bounded_push(items, capacity, x).len() <= capacity,
        bounded_push(items, capacity, x).last() == x,
        bounded_push(items, capacity, x) == items.push(x).skip(
            items.push(x).len() - bounded_push(items, capacity, x).len(),
        ),
        items.len() < capacity ==> bounded_push(items, capacity, x) == items.push(x),
{
    let r = bounded_push(items, capacity, x);
    if items.len() == capacity {
        assert(r =~= items.push(x).skip(1));
    } else {
        assert(r =~= items.push(x).skip(0));
    }
}


/// The attempt that `next_reconnect` reports after a run of stream endings,
/// starting from no attempt: `received[i]` tells whether the i-th stream
/// delivered an event before it ended.
pub open spec fn attempt_after(received: Seq<bool>) -> nat
    decreases received.len(),
{
    if received.len() == 0 {
        0
    } else if received.last() {
        1
    } else {
        min_nat(attempt_after(received.drop_last()) + 1, u32::MAX as nat)
    }
}

proof fn lemma_attempts_count_failures(received: Seq<bool>)
    requires
        received.len() <= u32::MAX,
        forall|i: int| 0 <= i < received.len() ==> !received[i],
    ensures
        attempt_after(received) == received.len(),
    decreases received.len(),
{
    if received.len() > 0 {
        lemma_attempts_count_failures(received.drop_last());
    }
}

/// When connections keep failing, the k-th retry is attempt k and waits the
/// initial backoff doubled k - 1 times (at most 8 times), capped at the
/// maximum; after a stream that delivered an event the count starts again at
/// attempt 1. Each step is what `next_reconnect` returns for the attempt
/// before it.
pub proof fn law_kth_reconnect(options: RealtimeOptions, received: Seq<bool>)
    requires
        0 < received.len() <= u32::MAX,
    ensures
        (forall|i: int| 0 <= i < received.len() ==> !received[i]) ==> attempt_after(received) == received.len()
            && reconnect_delay(options, attempt_after(received)) == min_nat(
            options.initial_backoff_ms as nat * pow2(min_nat((received.len() - 1) as nat, 8)),
            options.max_backoff_ms as nat,
        ),
        received.last() ==> attempt_after(received) == 1,
{
    if forall|i: int| 0 <= i < received.len() ==> !received[i] {
        lemma_attempts_count_failures(received);
    }
}

} // verus!
