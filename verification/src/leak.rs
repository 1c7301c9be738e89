//! The leak harness: a single-slot store of at most one retained buffer.
//!
//! The slot simulates a leak for external leak detectors: retaining swaps a
//! fresh deterministically-filled buffer into the slot (dropping whatever was
//! held before), clearing takes the buffer out and reports how many bytes
//! were released. One slot exists per process; the process-wide binding wraps
//! it in a mutual-exclusion lock, so each operation below acts on the slot
//! alone, between lock acquire and release.

use vstd::prelude::*;
use crate::messages::{cleared_text, nothing_to_clear_text, retained_text};
use crate::messages::{render_cleared, render_nothing_to_clear, render_retained};

verus! {

/// Bytes in one megabyte.
pub const BYTES_PER_MB: u64 = 1024 * 1024;

/// The deterministic fill pattern of a retained buffer of `n` bytes: the
/// byte at index `i` equals `i % 256`.
pub open spec fn filled(n: nat) -> Seq<u8> {
    Seq::new(n, |i: int| (i % 256) as u8)
}

/// What the slot holds after a retain of `size_mb` megabytes: exactly one
/// fresh buffer, whatever `slot` held before.
pub open spec fn retain_step(slot: Option<Seq<u8>>, size_mb: nat) -> Option<Seq<u8>> {
    Some(filled((size_mb * BYTES_PER_MB) as nat))
}

/// What the slot holds after a clear: nothing, whatever `slot` held before.
pub open spec fn clear_step(slot: Option<Seq<u8>>) -> Option<Seq<u8>> {
    None
}

/// How many bytes a clear of `slot` releases: the length of the held
/// buffer, or nothing where the slot is already empty.
pub open spec fn released_by_clear(slot: Option<Seq<u8>>) -> Option<nat> {
    match slot {
        Some(b) => Some(b.len()),
        None => None,
    }
}

/// Builds the deterministic buffer of `size_bytes` bytes.
pub fn make_filled_buffer(size_bytes: usize) -> (r: Vec<u8>)
    ensures
        r@ == filled(size_bytes as nat),
{
    let mut v: Vec<u8> = Vec::with_capacity(size_bytes);
    let mut i: usize = 0;
    while i < size_bytes
        invariant
            i <= size_bytes,
            v@ == filled(i as nat),
        decreases size_bytes - i,
    {
        v.push((i % 256) as u8);
        i = i + 1;
        proof {
            assert(v@ =~= filled(i as nat));
        }
    }
    v
}

/// The single-slot store: at any instant it is either empty or holds
/// exactly one retained buffer.
pub struct LeakSlot {
    buf: Option<Vec<u8>>,
}

impl View for LeakSlot {
    type V = Option<Seq<u8>>;

    closed spec fn view(&self) -> Option<Seq<u8>> {
        match self.buf {
            Some(b) => Some(b@),
            None => None,
        }
    }
}

impl LeakSlot {
    /// Creates the slot, initially empty.
    pub fn new() -> (r: LeakSlot)
        ensures
            r@ is None,
    {
        LeakSlot { buf: None }
    }

    /// Atomic primitive: puts `buf` into the slot, handing back whatever the
    /// slot held so the caller sees ownership move out before the old buffer
    /// is dropped.
    pub fn replace_buffer(&mut self, buf: Vec<u8>) -> (prev: Option<Vec<u8>>)
        ensures
            final(self)@ == Some(buf@),
            (match prev {
                Some(p) => old(self)@ == Some(p@),
                None => old(self)@ is None,
            }),
    {
        let prev = self.buf.take();
        self.buf = Some(buf);
        prev
    }

    /// Atomic primitive: takes the slot's contents, leaving it empty.
    pub fn take_buffer(&mut self) -> (r: Option<Vec<u8>>)
        ensures
            final(self)@ is None,
            (match r {
                Some(p) => old(self)@ == Some(p@),
                None => old(self)@ is None,
            }),
    {
        self.buf.take()
    }

    /// Retain operation: swaps a fresh deterministic buffer of `size_mb`
    /// megabytes into the slot, dropping whatever was held before, and
    /// reports the megabytes retained. Retaining zero megabytes leaves an
    /// empty-but-present buffer in the slot.
    pub fn allocate_and_retain(&mut self, size_mb: u64) -> (r: String)
        requires
            size_mb * BYTES_PER_MB <= usize::MAX,
        ensures
            final(self)@ == retain_step(old(self)@, size_mb as nat),
            r@ == retained_text(size_mb as nat),
    {
        proof {
            assert(size_mb * BYTES_PER_MB == size_mb * 1048576);
            assert(size_mb <= usize::MAX);
        }
        let size_bytes: usize = (size_mb as usize) * (BYTES_PER_MB as usize);
        let buf = make_filled_buffer(size_bytes);
        let _prev = self.replace_buffer(buf);
        render_retained(size_mb)
    }

    /// Clear operation: empties the slot and reports the bytes released, or
    /// that there was nothing to release.
    pub fn clear_retained(&mut self) -> (r: String)
        ensures
            final(self)@ == clear_step(old(self)@),
            r@ == (match released_by_clear(old(self)@) {
                Some(n) => cleared_text(n),
                None => nothing_to_clear_text(),
            }),
    {
        match self.take_buffer() {
            Some(b) => {
                let n = b.len();
                render_cleared(n as u64)
            },
            None => render_nothing_to_clear(),
        }
    }
}

/// Law: retaining `size_mb` megabytes and then immediately clearing releases
/// exactly `size_mb * 1024 * 1024` bytes, whatever the slot held before.
pub proof fn lemma_retain_then_clear_releases_all(slot: Option<Seq<u8>>, size_mb: nat)
    ensures
        released_by_clear(retain_step(slot, size_mb)) == Some((size_mb * BYTES_PER_MB) as nat),
{
}

/// Law: a clear empties the slot, so a second clear in a row finds nothing
/// to release.
pub proof fn lemma_clear_twice_finds_nothing(slot: Option<Seq<u8>>)
    ensures
        released_by_clear(clear_step(slot)) is None,
{
}

/// Law: retain replaces, it does not append: after retaining `a` and then
/// `b` megabytes, a clear releases `b * 1024 * 1024` bytes alone — the first
/// buffer was superseded.
pub proof fn lemma_retain_replaces(slot: Option<Seq<u8>>, a: nat, b: nat)
    ensures
        released_by_clear(retain_step(retain_step(slot, a), b)) == Some((b * BYTES_PER_MB) as nat),
{
}

/// A valid slot state for any history of operations whose retain calls
/// submitted the megabyte sizes in `sizes`: the slot is empty, or holds
/// exactly one deterministic buffer of one submitted size — never two
/// buffers, never a partial one.
pub open spec fn valid_slot_state(slot: Option<Seq<u8>>, sizes: Set<nat>) -> bool {
    match slot {
        None => true,
        Some(b) => exists|s: nat|
            #[trigger] sizes.contains(s) && b == filled((s * BYTES_PER_MB) as nat),
    }
}

/// Law: a retain of a submitted size always leaves the slot in a valid
/// state, whatever state it was in before — a retain never accumulates a
/// second buffer.
pub proof fn lemma_retain_keeps_valid_states(slot: Option<Seq<u8>>, size_mb: nat, sizes: Set<nat>)
    requires
        sizes.contains(size_mb),
    ensures
        valid_slot_state(retain_step(slot, size_mb), sizes),
{
    assert(sizes.contains(size_mb) && filled((size_mb * BYTES_PER_MB) as nat) == filled(
        (size_mb * BYTES_PER_MB) as nat,
    ));
}

/// Law: a clear always leaves the slot empty, a valid state for any
/// history — a clear never loses track of an allocation.
pub proof fn lemma_clear_keeps_valid_states(slot: Option<Seq<u8>>, sizes: Set<nat>)
    ensures
        valid_slot_state(clear_step(slot), sizes),
{
}

} // verus!
