//! Behavior of the statistics, dump-reporting and rendering operations.

use memdiag::dump::{dump_report, parent_dir, DumpError};
use memdiag::messages::{render_dump_unavailable, render_stats_unavailable};
use memdiag::stats::{
    memory_stats_report, query_memory_stats, render_snapshot, snapshot_from_readings,
};

#[test]
fn hello_reports_the_one_megabyte_fill() {
    assert_eq!(memdiag::hello(), "Hello from Rust! Allocated 1048576 bytes");
}

#[test]
fn decimal_rendering_is_exact() {
    assert_eq!(memdiag::numfmt::u64_to_decimal(0), "0");
    assert_eq!(memdiag::numfmt::u64_to_decimal(7), "7");
    assert_eq!(memdiag::numfmt::u64_to_decimal(10), "10");
    assert_eq!(memdiag::numfmt::u64_to_decimal(105), "105");
    assert_eq!(memdiag::numfmt::u64_to_decimal(5242880), "5242880");
    assert_eq!(
        memdiag::numfmt::u64_to_decimal(u64::MAX),
        "18446744073709551615"
    );
}

#[test]
fn query_always_returns_a_snapshot() {
    let s = query_memory_stats();
    // A best-effort sanity bound of a correct allocator, asked only of
    // counters that were actually read (non-zero).
    if s.allocated > 0 && s.mapped > 0 {
        assert!(s.allocated <= s.mapped);
    }
}

#[test]
fn failed_readings_become_zero_fields() {
    let s = snapshot_from_readings(Some(5), None, Some(7), None);
    assert_eq!(s.allocated, 5);
    assert_eq!(s.resident, 0);
    assert_eq!(s.active, 7);
    assert_eq!(s.mapped, 0);
}

#[test]
fn snapshot_renders_in_the_fixed_format() {
    let s = snapshot_from_readings(Some(1), Some(2), Some(3), Some(4));
    assert_eq!(
        render_snapshot(&s),
        "Memory Stats:\nAllocated: 1 bytes\nResident: 2 bytes\nActive: 3 bytes\nMapped: 4 bytes"
    );
}

#[test]
fn stats_report_when_profiling_is_compiled_out() {
    assert_eq!(
        memory_stats_report(false),
        "Memory profiling not available on this platform"
    );
    assert_eq!(
        render_stats_unavailable(),
        "Memory profiling not available on this platform"
    );
}

#[test]
fn stats_report_when_profiling_is_available() {
    let report = memory_stats_report(true);
    assert!(report.starts_with("Memory Stats:\nAllocated: "));
    assert!(report.ends_with(" bytes"));
}

#[test]
fn dump_report_on_success_names_the_path() {
    let outcome: Result<(), DumpError> = Ok(());
    assert_eq!(
        dump_report("some/new/dir/file.prof", &outcome),
        "Heap profile dumped to: some/new/dir/file.prof"
    );
}

#[test]
fn dump_report_on_producer_failure_keeps_the_details() {
    let outcome: Result<(), DumpError> =
        Err(DumpError::Producer(String::from("profiling inactive")));
    assert_eq!(
        dump_report("file.prof", &outcome),
        "Failed to dump heap profile: profiling inactive"
    );
}

#[test]
fn dump_report_on_write_failure_keeps_the_details() {
    let outcome: Result<(), DumpError> =
        Err(DumpError::Write(String::from("permission denied")));
    assert_eq!(
        dump_report("/root/file.prof", &outcome),
        "Failed to dump heap profile: permission denied"
    );
}

#[test]
fn dump_unavailable_report_is_fixed() {
    assert_eq!(
        render_dump_unavailable(),
        "Heap profiling not available on this platform"
    );
}

#[test]
fn parent_dir_takes_everything_before_the_last_separator() {
    assert_eq!(
        parent_dir("some/new/dir/file.prof"),
        Some(String::from("some/new/dir"))
    );
    assert_eq!(parent_dir("a/b"), Some(String::from("a")));
    assert_eq!(parent_dir("/file.prof"), Some(String::from("")));
}

#[test]
fn parent_dir_of_a_bare_file_name_is_none() {
    assert_eq!(parent_dir("file.prof"), None);
    assert_eq!(parent_dir(""), None);
}
