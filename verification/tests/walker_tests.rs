use temp_cleaner::age::CreationTime;
use temp_cleaner::config::Config;
use temp_cleaner::fstree::FsEntry;
use temp_cleaner::stats::Stats;
use temp_cleaner::walker::{begin_cleaning, remove_dir_contents, remove_entry, Root, RootOutcome};

const HOUR: u128 = 3_600_000_000_000;
const NOW: u128 = 1_700_000_000_000_000_000;

fn config(dry_run: bool, since: Option<u128>) -> Config {
    Config {
        dry_run,
        install_task: false,
        log_path: None,
        quiet: false,
        since,
        verbose: false,
    }
}

fn file(size: u64, age_ns: u128) -> FsEntry {
    FsEntry::File {
        size,
        created: CreationTime::Known(NOW - age_ns),
        remove_fails: false,
    }
}

fn dir(age_ns: u128, entries: Vec<FsEntry>) -> FsEntry {
    FsEntry::Dir {
        size: 0,
        created: CreationTime::Known(NOW - age_ns),
        remove_fails: false,
        entries,
    }
}

fn stats(errors_total: u64, removed_bytes: u64, removed_count: u64) -> Stats {
    Stats {
        errors_total,
        removed_bytes,
        removed_count,
    }
}

#[test]
fn concrete_scenario_24h_cutoff() {
    // cutoff 24h; root holds old.txt (48h old, 100 bytes), new.txt (1h
    // old, 50 bytes) and old_dir/ (72h old) holding inner.txt (1min
    // old, 10 bytes): everything but new.txt goes.
    let root = dir(
        96 * HOUR,
        vec![
            file(100, 48 * HOUR),
            file(50, 1 * HOUR),
            dir(72 * HOUR, vec![file(10, HOUR / 60)]),
        ],
    );
    let cfg = config(false, Some(24 * HOUR));
    let result = remove_dir_contents(&root, &cfg, NOW, false).unwrap();
    assert_eq!(result, stats(0, 110, 3));
}

#[test]
fn age_cascade_removes_newer_file_inside_old_dir() {
    let root = dir(96 * HOUR, vec![dir(72 * HOUR, vec![file(10, 0)])]);
    let cfg = config(false, Some(24 * HOUR));
    let result = remove_dir_contents(&root, &cfg, NOW, false).unwrap();
    assert_eq!(result, stats(0, 10, 2));
}

#[test]
fn age_exclusion_leaves_newer_file_uncounted() {
    let root = dir(96 * HOUR, vec![file(50, 1 * HOUR)]);
    let cfg = config(false, Some(24 * HOUR));
    let result = remove_dir_contents(&root, &cfg, NOW, false).unwrap();
    assert_eq!(result, stats(0, 0, 0));
}

#[test]
fn no_cutoff_removes_everything() {
    let root = dir(0, vec![file(5, 0), file(7, 0), dir(0, vec![file(1, 0)])]);
    let cfg = config(false, None);
    let result = remove_dir_contents(&root, &cfg, NOW, false).unwrap();
    assert_eq!(result, stats(0, 13, 4));
}

#[test]
fn dry_run_computes_the_same_stats() {
    let root = dir(
        96 * HOUR,
        vec![
            file(100, 48 * HOUR),
            file(50, 1 * HOUR),
            dir(72 * HOUR, vec![file(10, HOUR / 60)]),
        ],
    );
    let wet = config(false, Some(24 * HOUR));
    let dry = config(true, Some(24 * HOUR));
    let wet_stats = remove_dir_contents(&root, &wet, NOW, false).unwrap();
    let dry_stats = remove_dir_contents(&root, &dry, NOW, false).unwrap();
    assert_eq!(wet_stats, dry_stats);
}

#[test]
fn dry_run_counts_a_failing_removal_as_removed() {
    // The one place where dry and real runs disagree: a removal the OS
    // would refuse.
    let stubborn = FsEntry::File {
        size: 9,
        created: CreationTime::Known(NOW),
        remove_fails: true,
    };
    let root = dir(0, vec![stubborn]);
    let wet = remove_dir_contents(&root, &config(false, None), NOW, false).unwrap();
    let dry = remove_dir_contents(&root, &config(true, None), NOW, false).unwrap();
    assert_eq!(wet, stats(1, 0, 0));
    assert_eq!(dry, stats(0, 9, 1));
}

#[test]
fn fault_isolation_one_bad_sibling_among_three() {
    let root = dir(
        0,
        vec![file(4, 48 * HOUR), FsEntry::MetaUnreadable, file(6, 48 * HOUR)],
    );
    let cfg = config(false, Some(24 * HOUR));
    let result = remove_dir_contents(&root, &cfg, NOW, false).unwrap();
    assert_eq!(result, stats(1, 10, 2));
}

#[test]
fn unreadable_creation_time_is_left_alone() {
    let unknown_age = FsEntry::File {
        size: 33,
        created: CreationTime::Unreadable,
        remove_fails: false,
    };
    let root = dir(0, vec![unknown_age]);
    let cfg = config(false, Some(24 * HOUR));
    let result = remove_dir_contents(&root, &cfg, NOW, false).unwrap();
    // Conservatively skipped: not removed, and not an error either.
    assert_eq!(result, stats(0, 0, 0));
}

#[test]
fn unreadable_creation_time_is_removed_when_inherited() {
    // Inside a directory that already qualified, ages are not consulted.
    let unknown_age = FsEntry::File {
        size: 33,
        created: CreationTime::Unreadable,
        remove_fails: false,
    };
    let root = dir(0, vec![dir(48 * HOUR, vec![unknown_age])]);
    let cfg = config(false, Some(24 * HOUR));
    let result = remove_dir_contents(&root, &cfg, NOW, false).unwrap();
    assert_eq!(result, stats(0, 33, 2));
}

#[test]
fn unlistable_subdirectory_stops_the_current_level() {
    let root = dir(
        0,
        vec![
            file(4, 48 * HOUR),
            FsEntry::DirUnlistable {
                created: CreationTime::Known(NOW - 48 * HOUR),
            },
            file(6, 48 * HOUR),
        ],
    );
    let cfg = config(false, Some(24 * HOUR));
    let result = remove_dir_contents(&root, &cfg, NOW, false).unwrap();
    // The first file was removed, the unlistable directory counted one
    // error, and the sibling after it was never reached.
    assert_eq!(result, stats(1, 4, 1));
}

#[test]
fn unlistable_subdirectory_does_not_stop_the_parent_level() {
    // The early exit aborts one level only: an unlistable directory
    // nested one level down leaves the top level's later entries alive.
    let bad_subtree = dir(
        48 * HOUR,
        vec![FsEntry::DirUnlistable {
            created: CreationTime::Known(NOW),
        }],
    );
    let root = dir(0, vec![bad_subtree, file(8, 48 * HOUR)]);
    let cfg = config(false, Some(24 * HOUR));
    let result = remove_dir_contents(&root, &cfg, NOW, false).unwrap();
    // Inside the subtree: one error, early exit, then the subtree dir
    // itself is still removed; the top level goes on to the file.
    assert_eq!(result, stats(1, 8, 2));
}

#[test]
fn ineligible_directory_is_not_recursed_into() {
    let root = dir(0, vec![dir(1 * HOUR, vec![file(100, 48 * HOUR)])]);
    let cfg = config(false, Some(24 * HOUR));
    let result = remove_dir_contents(&root, &cfg, NOW, false).unwrap();
    assert_eq!(result, stats(0, 0, 0));
}

#[test]
fn cleaning_a_file_fails() {
    let cfg = config(false, None);
    assert!(remove_dir_contents(&file(1, 0), &cfg, NOW, false).is_err());
}

#[test]
fn cleaning_an_unlistable_directory_fails() {
    let cfg = config(false, None);
    let unlistable = FsEntry::DirUnlistable {
        created: CreationTime::Known(NOW),
    };
    assert!(remove_dir_contents(&unlistable, &cfg, NOW, false).is_err());
}

#[test]
fn remove_entry_respects_dry_run() {
    let stubborn = FsEntry::File {
        size: 1,
        created: CreationTime::Known(NOW),
        remove_fails: true,
    };
    assert!(remove_entry(&stubborn, &config(true, None)).is_ok());
    assert!(remove_entry(&stubborn, &config(false, None)).is_err());
    assert!(remove_entry(&file(1, 0), &config(false, None)).is_ok());
}

#[test]
fn begin_cleaning_reports_each_root() {
    let roots = vec![
        Root {
            exists: false,
            tree: dir(0, vec![file(3, 48 * HOUR)]),
        },
        Root {
            exists: true,
            tree: FsEntry::DirUnlistable {
                created: CreationTime::Known(NOW),
            },
        },
        Root {
            exists: true,
            tree: dir(0, vec![file(3, 48 * HOUR)]),
        },
    ];
    let cfg = config(false, Some(24 * HOUR));
    let outcomes = begin_cleaning(&roots, &cfg, NOW);
    assert_eq!(outcomes.len(), 3);
    assert!(matches!(outcomes[0], RootOutcome::Missing));
    assert!(matches!(outcomes[1], RootOutcome::Failed));
    match &outcomes[2] {
        RootOutcome::Cleaned(s) => assert_eq!(*s, stats(0, 3, 1)),
        _ => panic!("third root should have been cleaned"),
    }
}

#[test]
fn additivity_across_sibling_subtrees() {
    let cfg = config(false, Some(24 * HOUR));
    let parent = dir(
        0,
        vec![
            dir(72 * HOUR, vec![file(5, 0), file(7, 0)]),
            dir(72 * HOUR, vec![file(11, 0)]),
        ],
    );
    let total = remove_dir_contents(&parent, &cfg, NOW, false).unwrap();
    let a = dir(72 * HOUR, vec![file(5, 0), file(7, 0)]);
    let b = dir(72 * HOUR, vec![file(11, 0)]);
    let in_a = remove_dir_contents(&a, &cfg, NOW, true).unwrap();
    let in_b = remove_dir_contents(&b, &cfg, NOW, true).unwrap();
    // Two entries are removed directly at the parent's level: the two
    // subdirectories themselves.
    assert_eq!(
        total.removed_count,
        in_a.removed_count + in_b.removed_count + 2
    );
    assert_eq!(total.errors_total, 0);
    assert_eq!(total.removed_bytes, 23);
}

#[test]
fn empty_directory_yields_zero_stats() {
    let root = dir(0, vec![]);
    let result = remove_dir_contents(&root, &config(false, None), NOW, false).unwrap();
    assert_eq!(result, stats(0, 0, 0));
}
