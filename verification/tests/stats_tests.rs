use temp_cleaner::report::{print_err, CleanError};
use temp_cleaner::stats::Stats;

#[test]
fn new_stats_are_all_zero() {
    let s = Stats::new();
    assert_eq!(s.errors_total, 0);
    assert_eq!(s.removed_bytes, 0);
    assert_eq!(s.removed_count, 0);
}

#[test]
fn add_sums_field_wise() {
    let mut a = Stats {
        errors_total: 1,
        removed_bytes: 20,
        removed_count: 3,
    };
    let b = Stats {
        errors_total: 4,
        removed_bytes: 5,
        removed_count: 6,
    };
    a.add(b);
    assert_eq!(a.errors_total, 5);
    assert_eq!(a.removed_bytes, 25);
    assert_eq!(a.removed_count, 9);
}

#[test]
fn print_err_renders_message_chain_and_separator() {
    let err = CleanError {
        message: String::from("can't read dir /tmp/locked"),
        causes: vec![
            String::from("permission denied"),
            String::from("access is denied"),
        ],
    };
    let lines = print_err(&err);
    assert_eq!(
        lines,
        vec![
            String::from("Error: can't read dir /tmp/locked"),
            String::from("  Cause: permission denied"),
            String::from("  Cause: access is denied"),
            String::from(""),
        ]
    );
}

#[test]
fn print_err_without_causes_keeps_message_and_separator() {
    let err = CleanError {
        message: String::from("failed to remove file a.txt"),
        causes: vec![],
    };
    let lines = print_err(&err);
    assert_eq!(lines.len(), 2);
    assert_eq!(lines[0], "Error: failed to remove file a.txt");
    assert_eq!(lines[1], "");
}
