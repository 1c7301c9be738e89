//! Diagnostic surface over an instrumented memory allocator: point-in-time
//! memory counters, on-demand heap profile dumps, and a synchronized
//! single-slot retained allocation for exercising leak-detection tooling.

use vstd::prelude::*;

pub mod dump;
pub mod leak;
pub mod messages;
pub mod numfmt;
pub mod stats;

verus! {

/// Sanity-check operation for interface liveness: performs a bounded
/// one-megabyte allocate-and-fill cycle, drops the buffer, and reports the
/// number of bytes it held.
pub fn hello() -> (r: String)
    ensures
        r@ == crate::messages::hello_text((1024 * 1024) as nat),
{
    let buf = crate::leak::make_filled_buffer(1024 * 1024);
    let n: usize = buf.len();
    crate::messages::render_hello(n as u64)
}

} // verus!
