//! Pacing of one worker: a batch of `quota` units of work is followed by a
//! pause that fills the rest of the second.
use vstd::prelude::*;

verus! {

/// Length of one gated cycle, in nanoseconds.
pub const CYCLE_NANOS: u64 = 1_000_000_000;

/// The pause owed after a batch that took `elapsed` nanoseconds.
pub open spec fn delay_spec(elapsed: nat) -> nat {
    if elapsed < CYCLE_NANOS {
        (CYCLE_NANOS - elapsed) as nat
    } else {
        0
    }
}

/// The wall-clock length of a cycle whose batch took `elapsed` nanoseconds.
pub open spec fn cycle_length(elapsed: nat) -> nat {
    elapsed + delay_spec(elapsed)
}

/// How long to suspend after a batch that took `elapsed_nanos`: the rest of
/// the second when the batch was shorter than a second, else nothing. An
/// overrun is never made up by a later cycle.
pub fn gate_delay(elapsed_nanos: u64) -> (r: u64)
    ensures
        r == delay_spec(elapsed_nanos as nat),
        r <= CYCLE_NANOS,
{
    if elapsed_nanos < CYCLE_NANOS {
        CYCLE_NANOS - elapsed_nanos
    } else {
        0
    }
}

/// Each gated cycle lasts exactly one second when its batch fits in one, and
/// exactly as long as its batch otherwise; the pause after a batch depends on
/// that batch alone, so an overrun in one cycle never shortens the next.
pub proof fn lemma_gate_never_compensates(first: nat, second: nat)
    ensures
        cycle_length(second) == if second < CYCLE_NANOS { CYCLE_NANOS as nat } else { second },
        cycle_length(second) >= CYCLE_NANOS,
        delay_spec(second) <= CYCLE_NANOS,
        first >= CYCLE_NANOS ==> delay_spec(first) == 0,
        second < CYCLE_NANOS ==> delay_spec(second) + second == CYCLE_NANOS,
{
}

} // verus!
