//! The fixed report strings of the diagnostic surface.
//!
//! Every boundary operation answers with a descriptive string; the exact
//! wording of each answer is pinned down here, both as a specification
//! (a `Seq<char>`) and as a verified renderer.

use vstd::prelude::*;
use crate::numfmt::{decimal, u64_to_decimal};

verus! {

/// The report of the allocation sanity check, for a fill of `bytes` bytes.
pub open spec fn hello_text(bytes: nat) -> Seq<char> {
    "Hello from Rust! Allocated "@ + decimal(bytes) + " bytes"@
}

/// The report of a retain operation that kept `mb` megabytes.
pub open spec fn retained_text(mb: nat) -> Seq<char> {
    "Allocated and leaked "@ + decimal(mb) + " MB"@
}

/// The report of a clear operation that released `bytes` bytes.
pub open spec fn cleared_text(bytes: nat) -> Seq<char> {
    "Cleared "@ + decimal(bytes) + " bytes of leaked memory"@
}

/// The report of a clear operation that found the slot already empty.
pub open spec fn nothing_to_clear_text() -> Seq<char> {
    "No leaked memory to clear"@
}

/// The memory statistics report for the four counter readings.
pub open spec fn stats_text(allocated: nat, resident: nat, active: nat, mapped: nat) -> Seq<char> {
    "Memory Stats:\nAllocated: "@ + decimal(allocated) + " bytes\nResident: "@ + decimal(resident)
        + " bytes\nActive: "@ + decimal(active) + " bytes\nMapped: "@ + decimal(mapped) + " bytes"@
}

/// The fixed answer of the statistics operation where profiling is
/// compiled out.
pub open spec fn stats_unavailable_text() -> Seq<char> {
    "Memory profiling not available on this platform"@
}

/// The fixed answer of the dump operation where profiling is compiled out.
pub open spec fn dump_unavailable_text() -> Seq<char> {
    "Heap profiling not available on this platform"@
}

/// The report of a heap profile dump that wrote `path`.
pub open spec fn dump_ok_text(path: Seq<char>) -> Seq<char> {
    "Heap profile dumped to: "@ + path
}

/// The report of a heap profile dump that failed, with its details.
pub open spec fn dump_failed_text(details: Seq<char>) -> Seq<char> {
    "Failed to dump heap profile: "@ + details
}

/// Renders the sanity-check report for a fill of `bytes` bytes.
pub fn render_hello(bytes: u64) -> (r: String)
    ensures
        r@ == hello_text(bytes as nat),
{
    let mut r = String::from_str("Hello from Rust! Allocated ");
    r.append(u64_to_decimal(bytes).as_str());
    r.append(" bytes");
    proof {
        assert(r@ =~= hello_text(bytes as nat));
    }
    r
}

/// Renders the retain report for `mb` megabytes.
pub fn render_retained(mb: u64) -> (r: String)
    ensures
        r@ == retained_text(mb as nat),
{
    let mut r = String::from_str("Allocated and leaked ");
    r.append(u64_to_decimal(mb).as_str());
    r.append(" MB");
    proof {
        assert(r@ =~= retained_text(mb as nat));
    }
    r
}

/// Renders the clear report for a release of `bytes` bytes.
pub fn render_cleared(bytes: u64) -> (r: String)
    ensures
        r@ == cleared_text(bytes as nat),
{
    let mut r = String::from_str("Cleared ");
    r.append(u64_to_decimal(bytes).as_str());
    r.append(" bytes of leaked memory");
    proof {
        assert(r@ =~= cleared_text(bytes as nat));
    }
    r
}

/// Renders the answer of a clear that found nothing retained.
pub fn render_nothing_to_clear() -> (r: String)
    ensures
        r@ == nothing_to_clear_text(),
{
    String::from_str("No leaked memory to clear")
}

/// Renders the memory statistics report for the four counter readings.
pub fn render_stats(allocated: u64, resident: u64, active: u64, mapped: u64) -> (r: String)
    ensures
        r@ == stats_text(allocated as nat, resident as nat, active as nat, mapped as nat),
{
    let mut r = String::from_str("Memory Stats:\nAllocated: ");
    r.append(u64_to_decimal(allocated).as_str());
    r.append(" bytes\nResident: ");
    r.append(u64_to_decimal(resident).as_str());
    r.append(" bytes\nActive: ");
    r.append(u64_to_decimal(active).as_str());
    r.append(" bytes\nMapped: ");
    r.append(u64_to_decimal(mapped).as_str());
    r.append(" bytes");
    proof {
        assert(r@ =~= stats_text(
            allocated as nat,
            resident as nat,
            active as nat,
            mapped as nat,
        ));
    }
    r
}

/// Renders the fixed "not available" answer of the statistics operation.
pub fn render_stats_unavailable() -> (r: String)
    ensures
        r@ == stats_unavailable_text(),
{
    String::from_str("Memory profiling not available on this platform")
}

/// Renders the fixed "not available" answer of the dump operation.
pub fn render_dump_unavailable() -> (r: String)
    ensures
        r@ == dump_unavailable_text(),
{
    String::from_str("Heap profiling not available on this platform")
}

/// Renders the success report of a heap profile dump to `path`.
pub fn render_dump_ok(path: &str) -> (r: String)
    ensures
        r@ == dump_ok_text(path@),
{
    let mut r = String::from_str("Heap profile dumped to: ");
    r.append(path);
    proof {
        assert(r@ =~= dump_ok_text(path@));
    }
    r
}

/// Renders the failure report of a heap profile dump.
pub fn render_dump_failed(details: &str) -> (r: String)
    ensures
        r@ == dump_failed_text(details@),
{
    let mut r = String::from_str("Failed to dump heap profile: ");
    r.append(details);
    proof {
        assert(r@ =~= dump_failed_text(details@));
    }
    r
}

} // verus!
