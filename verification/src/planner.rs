//! Concurrency planner: derives a total operation-concurrency budget from a
//! target throughput, then divides that budget across the objects of a
//! workload.
//!
//! Throughput is measured in megabits per second so that the arithmetic is
//! exact; one gigabit per second is 1000 megabits per second.
use vstd::prelude::*;

verus! {

/// The planner budgets 2.5 connections per gigabit/s of target throughput,
/// i.e. one connection per 400 megabits/s. An empirically chosen policy
/// knob for large-object workloads, not a law.
pub const MEGABITS_PER_CONNECTION: u64 = 400;

/// Total concurrency never drops below this, so that even a zero or tiny
/// throughput target makes progress.
pub const MIN_TOTAL_CONCURRENCY: u64 = 10;

/// The target divided by the per-connection budget, rounded to the nearest
/// whole connection (halves round up).
pub open spec fn rounded_connections(megabits_per_sec: int) -> int {
    megabits_per_sec / (MEGABITS_PER_CONNECTION as int) + if megabits_per_sec % (
    MEGABITS_PER_CONNECTION as int) >= (MEGABITS_PER_CONNECTION as int) / 2 {
        1int
    } else {
        0int
    }
}

/// Total operation concurrency for a target throughput: the rounded
/// connection count, floored at [`MIN_TOTAL_CONCURRENCY`].
pub open spec fn total_concurrency_spec(megabits_per_sec: int) -> int {
    let c = rounded_connections(megabits_per_sec);
    if c < MIN_TOTAL_CONCURRENCY as int {
        MIN_TOTAL_CONCURRENCY as int
    } else {
        c
    }
}

/// The share of a total concurrency budget that one of `num_objects`
/// objects receives, floored at one so every object makes progress.
pub open spec fn per_object_concurrency_spec(total: int, num_objects: int) -> int {
    let share = total / num_objects;
    if share < 1 {
        1int
    } else {
        share
    }
}

/// Calculate the best total concurrency, given a target throughput.
pub fn calculate_concurrency(target_throughput_megabits_per_sec: u64) -> (c: u64)
    ensures
        c == total_concurrency_spec(target_throughput_megabits_per_sec as int),
{
    let base: u64 = target_throughput_megabits_per_sec / MEGABITS_PER_CONNECTION;
    let rem: u64 = target_throughput_megabits_per_sec % MEGABITS_PER_CONNECTION;
    let rounded: u64 = if rem >= MEGABITS_PER_CONNECTION / 2 {
        base + 1
    } else {
        base
    };
    if rounded < MIN_TOTAL_CONCURRENCY {
        MIN_TOTAL_CONCURRENCY
    } else {
        rounded
    }
}

/// Divide a total concurrency budget across `num_objects` objects.
pub fn per_object_concurrency(total: u64, num_objects: usize) -> (c: u64)
    requires
        num_objects > 0,
    ensures
        c == per_object_concurrency_spec(total as int, num_objects as int),
{
    let share: u64 = total / (num_objects as u64);
    if share < 1 {
        1
    } else {
        share
    }
}

/// Plan a workload's concurrency: the total budget for the target
/// throughput, and the share each of `task_count` objects receives for its
/// own internal sub-transfers.
pub fn plan(target_throughput_megabits_per_sec: u64, task_count: usize) -> (r: (u64, u64))
    requires
        task_count > 0,
    ensures
        r.0 == total_concurrency_spec(target_throughput_megabits_per_sec as int),
        r.1 == per_object_concurrency_spec(r.0 as int, task_count as int),
{
    let total = calculate_concurrency(target_throughput_megabits_per_sec);
    let per_object = per_object_concurrency(total, task_count);
    (total, per_object)
}

} // verus!
