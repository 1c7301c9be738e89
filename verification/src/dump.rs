//! Heap Dump: the decision and reporting half of the profile-dump operation.
//!
//! The dump itself is filesystem work performed by the process binding: it
//! creates the missing parent directory (best-effort, computed here), asks
//! the allocator's profiling subsystem to serialize the heap profile to the
//! caller's path, and hands the outcome back to `dump_report` for the
//! answer text.

use vstd::prelude::*;
use crate::messages::{dump_failed_text, dump_ok_text, render_dump_failed, render_dump_ok};

verus! {

/// Why a heap profile dump failed.
pub enum DumpError {
    /// The profiling subsystem could not produce profile data (for
    /// example, profiling is inactive); nothing was written.
    Producer(String),
    /// The file write failed; the underlying message is preserved for
    /// diagnostics.
    Write(String),
}

/// The preserved diagnostic message of a dump error.
pub open spec fn error_text(e: DumpError) -> Seq<char> {
    match e {
        DumpError::Producer(s) => s@,
        DumpError::Write(s) => s@,
    }
}

impl DumpError {
    /// The preserved diagnostic message.
    pub fn details(&self) -> (r: &str)
        ensures
            r@ == error_text(*self),
    {
        match self {
            DumpError::Producer(s) => s.as_str(),
            DumpError::Write(s) => s.as_str(),
        }
    }
}

/// True where `s` holds a path separator.
pub open spec fn has_separator(s: Seq<char>) -> bool {
    exists|i: int| 0 <= i < s.len() && s[i] == '/'
}

/// True where `i` is the index of the last path separator of `s`.
pub open spec fn is_last_separator(s: Seq<char>, i: int) -> bool {
    &&& 0 <= i < s.len()
    &&& s[i] == '/'
    &&& forall|j: int| i < j < s.len() ==> s[j] != '/'
}

/// The parent directory of `path`: everything before the last separator,
/// where the path has one. The dump operation creates this directory
/// (recursively, best-effort) before asking for the dump, so that only a
/// genuine write failure surfaces as the dump's error.
pub fn parent_dir(path: &str) -> (r: Option<String>)
    ensures
        (match r {
            Some(p) => exists|i: int|
                is_last_separator(path@, i) && p@ == path@.subrange(0, i),
            None => !has_separator(path@),
        }),
{
    let n = path.unicode_len();
    let mut i: usize = n;
    while i > 0
        invariant
            i <= n,
            n == path@.len(),
            forall|j: int| i <= j < n ==> path@[j] != '/',
        decreases i,
    {
        let c = path.get_char(i - 1);
        if c == '/' {
            let p = path.substring_char(0, i - 1);
            let r = String::from_str(p);
            proof {
                assert(is_last_separator(path@, i - 1));
            }
            return Some(r);
        }
        i = i - 1;
    }
    None
}

/// The report for a finished dump attempt: the success wording with the
/// path that was written, or the failure wording with the error's
/// preserved details.
pub fn dump_report(path: &str, outcome: &Result<(), DumpError>) -> (r: String)
    ensures
        (match outcome {
            Result::Ok(_) => r@ == dump_ok_text(path@),
            Result::Err(e) => r@ == dump_failed_text(error_text(*e)),
        }),
{
    match outcome {
        Result::Ok(_) => render_dump_ok(path),
        Result::Err(e) => render_dump_failed(e.details()),
    }
}

} // verus!
