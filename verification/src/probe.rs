//! Probe values: the numbers that a health check sends through a connection.
//!
//! A manager keeps one counter. Each health check takes the counter's value as
//! its probe and moves the counter one step on. The counter has the width of
//! `usize` and wraps around at its end, so that a probe comes back only after
//! as many checks as the counter has values.
//!
//! The counter itself is an atomic of `std`, whose value no contract can
//! speak of. What is stated here holds of the values that such a counter takes
//! one after the other.

use vstd::arithmetic::div_mod::lemma_mod_equivalence;
use vstd::prelude::*;

verus! {

/// How many values the counter has.
pub open spec fn counter_range() -> int {
    usize::MAX + 1
}

/// The counter that starts at `start`, after `steps` health checks.
pub open spec fn count_after(start: usize, steps: nat) -> usize {
    ((start + steps) % counter_range()) as usize
}

/// The probe value that a health check sends when it finds the counter at
/// `count`.
pub open spec fn probe_value(count: usize) -> u64 {
    count as u64
}

/// The probe value for a counter value.
pub fn probe_of(count: usize) -> (probe: u64)
    ensures
        probe == probe_value(count),
{
    count as u64
}

/// Steps add up: a counter that has made `steps` steps and makes `more` steps
/// stands where it would after `steps + more` steps.
pub proof fn steps_add_up(start: usize, steps: nat, more: nat)
    ensures
        count_after(start, 0) == start,
        count_after(count_after(start, steps), more) == count_after(start, steps + more),
{
    assert(counter_range() == 0x1_0000_0000 || counter_range() == 0x1_0000_0000_0000_0000);
}

/// After `steps` health checks the counter has advanced by exactly `steps`:
/// by that number itself while the counter has not reached its end, and by
/// that number up to whole rounds of the counter in any case.
pub proof fn counter_advances_by_steps(start: usize, steps: nat)
    ensures
        start + steps <= usize::MAX ==> count_after(start, steps) == start + steps,
        (count_after(start, steps) - start) % counter_range() == steps % (counter_range() as nat),
{
    let range = counter_range();
    lemma_mod_equivalence(count_after(start, steps) as int, start + steps, range);
    lemma_mod_equivalence(count_after(start, steps) - start, steps as int, range);
}

/// Two health checks of one manager send different probes, unless the counter
/// has gone round a whole number of times between them: the `first`-th and
/// the `second`-th check after the counter stood at `start` differ in their
/// probes whenever the number of checks from one to the other is no multiple
/// of the number of values that the counter has.
pub proof fn probes_are_distinct(start: usize, first: nat, second: nat)
    requires
        (second - first) % counter_range() != 0,
    ensures
        probe_value(count_after(start, first)) != probe_value(count_after(start, second)),
{
    lemma_mod_equivalence(start + second, start + first, counter_range());
}

} // verus!
