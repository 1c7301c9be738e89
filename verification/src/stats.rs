//! Stats Snapshot: best-effort point-in-time memory counters.
//!
//! A query first advances the allocator's statistics epoch (the allocator
//! otherwise serves cached counters) and then reads four counters. Each
//! reading is independent: an unreadable counter yields zero for its field,
//! and the query as a whole always returns a snapshot.

use vstd::prelude::*;
use crate::messages::{render_stats, render_stats_unavailable, stats_text, stats_unavailable_text};

verus! {

/// A point-in-time snapshot of four allocator counters, in bytes. Each
/// field is a best-effort estimate; zero stands where the counter could
/// not be read.
pub struct MemorySnapshot {
    pub allocated: usize,
    pub resident: usize,
    pub active: usize,
    pub mapped: usize,
}

/// What a single best-effort reading contributes: its value, or zero where
/// the counter could not be read.
pub open spec fn reading_or_zero(r: Option<usize>) -> usize {
    match r {
        Some(n) => n,
        None => 0,
    }
}

/// Assembles a snapshot from four independent counter readings. A failed
/// reading is recovered locally as zero; no combination of failures fails
/// the snapshot itself.
pub fn snapshot_from_readings(
    allocated: Option<usize>,
    resident: Option<usize>,
    active: Option<usize>,
    mapped: Option<usize>,
) -> (r: MemorySnapshot)
    ensures
        r.allocated == reading_or_zero(allocated),
        r.resident == reading_or_zero(resident),
        r.active == reading_or_zero(active),
        r.mapped == reading_or_zero(mapped),
{
    MemorySnapshot {
        allocated: match allocated {
            Some(n) => n,
            None => 0,
        },
        resident: match resident {
            Some(n) => n,
            None => 0,
        },
        active: match active {
            Some(n) => n,
            None => 0,
        },
        mapped: match mapped {
            Some(n) => n,
            None => 0,
        },
    }
}

/// Relies on tikv_jemalloc_ctl::epoch::advance: advances the allocator's
/// statistics epoch so that cached counters are refreshed before the next
/// read. Reports whether the control call succeeded; the epoch value itself
/// carries no meaning here.
#[verifier::external_body]
fn epoch_advance() -> (ok: bool) {
    tikv_jemalloc_ctl::epoch::advance().is_ok()
}

/// Relies on tikv_jemalloc_ctl::stats::allocated::read: the total bytes
/// allocated by the application as the allocator accounts them, or `None`
/// where the counter cannot be read.
#[verifier::external_body]
fn read_allocated() -> (r: Option<usize>) {
    tikv_jemalloc_ctl::stats::allocated::read().ok()
}

/// Relies on tikv_jemalloc_ctl::stats::resident::read: the total bytes in
/// physically resident data pages mapped by the allocator, or `None` where
/// the counter cannot be read.
#[verifier::external_body]
fn read_resident() -> (r: Option<usize>) {
    tikv_jemalloc_ctl::stats::resident::read().ok()
}

/// Relies on tikv_jemalloc_ctl::stats::active::read: the total bytes in
/// active pages allocated by the application, or `None` where the counter
/// cannot be read.
#[verifier::external_body]
fn read_active() -> (r: Option<usize>) {
    tikv_jemalloc_ctl::stats::active::read().ok()
}

/// Relies on tikv_jemalloc_ctl::stats::mapped::read: the total bytes in
/// active extents mapped by the allocator, or `None` where the counter
/// cannot be read.
#[verifier::external_body]
fn read_mapped() -> (r: Option<usize>) {
    tikv_jemalloc_ctl::stats::mapped::read().ok()
}

/// Queries the allocator for a fresh snapshot: advances the statistics
/// epoch, then reads the four counters in sequence. The values are whatever
/// the allocator reports at the instant of each read — the four fields may
/// reflect slightly different instants under concurrent allocation — so
/// nothing is promised of them beyond what the snapshot type itself says;
/// the call always returns a snapshot.
pub fn query_memory_stats() -> MemorySnapshot {
    let _ = epoch_advance();
    let allocated = read_allocated();
    let resident = read_resident();
    let active = read_active();
    let mapped = read_mapped();
    snapshot_from_readings(allocated, resident, active, mapped)
}

/// Renders a snapshot as the fixed-format statistics report.
pub fn render_snapshot(s: &MemorySnapshot) -> (r: String)
    ensures
        r@ == stats_text(s.allocated as nat, s.resident as nat, s.active as nat, s.mapped as nat),
{
    render_stats(s.allocated as u64, s.resident as u64, s.active as u64, s.mapped as u64)
}

/// The statistics operation behind the diagnostic surface. The flag says
/// whether a profiling-capable allocator was bound into the process — a
/// condition fixed at build configuration time. Where it was, the answer is
/// a rendered fresh snapshot; where it was not, the answer is the fixed
/// "not available" text and the allocator is never queried.
pub fn memory_stats_report(profiling_available: bool) -> (r: String)
    ensures
        !profiling_available ==> r@ == stats_unavailable_text(),
        profiling_available ==> (exists|a: nat, b: nat, c: nat, d: nat|
            r@ == stats_text(a, b, c, d)),
{
    if profiling_available {
        let s = query_memory_stats();
        let out = render_snapshot(&s);
        proof {
            assert(out@ == stats_text(
                s.allocated as nat,
                s.resident as nat,
                s.active as nat,
                s.mapped as nat,
            ));
        }
        out
    } else {
        render_stats_unavailable()
    }
}

} // verus!
