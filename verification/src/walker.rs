//! The recursive traversal engine: walks a directory snapshot, applies
//! the age filter with the "once eligible, recurse unconditionally"
//! rule, isolates per-entry failures from the run, and aggregates
//! statistics bottom-up.

use crate::age::is_eligible;
use crate::config::Config;
use crate::fstree::{
    lemma_clean_bounds, lemma_clean_entries_concat, lemma_clean_singleton, lemma_contrib_bounds,
    lemma_elem_totals, lemma_entry_totals_pos, lemma_seq_totals_nonneg, lemma_totals_concat,
    seq_total_bytes, seq_total_entries, spec_clean_entries, spec_stops_early, FsEntry,
};
use crate::stats::{lemma_plus_assoc, Stats};
use vstd::pervasive::unreached;
use vstd::prelude::*;

verus! {

/// A directory's entries could not be listed: fatal for the call that
/// cleans that directory, one recorded error for its caller.
#[derive(Clone, Copy, Debug, PartialEq, Eq, Structural)]
pub struct ListDirError;

/// The OS refused one removal: one recorded error, and the entry stays
/// on disk.
#[derive(Clone, Copy, Debug, PartialEq, Eq, Structural)]
pub struct RemoveError;

/// Removes one file or one directory, or, under dry run, performs no
/// mutation at all and reports success so that the statistics still
/// reflect what would happen.
pub fn remove_entry(entry: &FsEntry, config: &Config) -> (r: Result<(), RemoveError>)
    requires
        entry is File || entry is Dir,
    ensures
        r is Ok <==> (config.dry_run || !entry.spec_remove_fails()),
{
    if config.dry_run {
        return Ok(());
    }
    let fails = match entry {
        FsEntry::File { remove_fails, .. } => *remove_fails,
        FsEntry::Dir { remove_fails, .. } => *remove_fails,
        _ => false,
    };
    if fails {
        Err(RemoveError)
    } else {
        Ok(())
    }
}

/// Cleans the contents of one directory: lists its entries, consults
/// the age filter for each (skipped entirely when `skip_date_check`
/// carries an ancestor's eligibility), recurses into eligible
/// subdirectories with the check skipped from there on, removes
/// eligible entries, and merges child statistics into its own.
///
/// Failure to list the directory is fatal for this call alone. A
/// failed recursive call is counted as one error and stops the
/// remaining entries of this directory; a failed metadata read or
/// removal is counted as one error and the scan continues.
pub fn remove_dir_contents(dir: &FsEntry, config: &Config, now: u128, skip_date_check: bool) -> (r:
    Result<Stats, ListDirError>)
    requires
        dir.total_entries() <= u64::MAX,
        dir.total_bytes() <= u64::MAX,
    ensures
        match r {
            Ok(stats) => dir is Dir && stats@ == spec_clean_entries(
                dir->Dir_entries@,
                config.since,
                now,
                config.dry_run,
                skip_date_check,
            ),
            Err(_) => !(dir is Dir),
        },
    decreases dir.total_entries(),
{
    let entries: &Vec<FsEntry> = match dir {
        FsEntry::Dir { entries, .. } => entries,
        _ => {
            return Err(ListDirError);
        },
    };
    let mut stats = Stats::new();
    let mut i: usize = 0;
    proof {
        assert(entries@.take(0) =~= Seq::<FsEntry>::empty());
    }
    while i < entries.len()
        invariant
            i <= entries.len(),
            dir is Dir,
            dir->Dir_entries@ == entries@,
            seq_total_entries(entries@) <= u64::MAX - 1,
            seq_total_bytes(entries@) <= u64::MAX,
            !spec_stops_early(
                entries@.take(i as int),
                config.since,
                now,
                skip_date_check,
            ),
            stats@ == spec_clean_entries(
                entries@.take(i as int),
                config.since,
                now,
                config.dry_run,
                skip_date_check,
            ),
        decreases entries.len() - i,
    {
        let e = &entries[i];
        let ghost pre = entries@.take(i as int);
        let ghost cur = entries@[i as int];
        let ghost rest = entries@.skip(i as int + 1);
        proof {
            assert(entries@.take(i as int + 1) =~= pre + seq![cur]);
            assert(entries@ =~= entries@.take(i as int + 1) + rest);
            lemma_clean_singleton(cur, config.since, now, config.dry_run, skip_date_check);
            lemma_clean_entries_concat(
                pre,
                seq![cur],
                config.since,
                now,
                config.dry_run,
                skip_date_check,
            );
            lemma_clean_bounds(pre, config.since, now, config.dry_run, skip_date_check);
            lemma_contrib_bounds(cur, config.since, now, config.dry_run, skip_date_check);
            lemma_totals_concat(pre, seq![cur]);
            lemma_totals_concat(entries@.take(i as int + 1), rest);
            lemma_seq_totals_nonneg(rest);
            lemma_seq_totals_nonneg(pre);
            lemma_entry_totals_pos(cur);
            assert(seq![cur].drop_first() =~= Seq::<FsEntry>::empty());
            assert(seq_total_entries(Seq::<FsEntry>::empty()) == 0);
            assert(seq_total_bytes(Seq::<FsEntry>::empty()) == 0);
            assert(seq_total_entries(seq![cur]) == cur.total_entries());
            assert(seq_total_bytes(seq![cur]) == cur.total_bytes());
        }
        match e {
            FsEntry::MetaUnreadable => {
                // The entry's metadata cannot be read: one error, the
                // entry is left untouched, the scan continues.
                stats.errors_total = stats.errors_total + 1;
            },
            FsEntry::File { size, created, .. } => {
                if is_eligible(skip_date_check, &config.since, created, now) {
                    match remove_entry(e, config) {
                        Ok(_) => {
                            stats.removed_bytes = stats.removed_bytes + *size;
                            stats.removed_count = stats.removed_count + 1;
                        },
                        Err(_) => {
                            stats.errors_total = stats.errors_total + 1;
                        },
                    }
                }
            },
            FsEntry::DirUnlistable { created } => {
                if is_eligible(skip_date_check, &config.since, created, now) {
                    // The recursive call into this subdirectory fails:
                    // one error, and the remaining entries of the
                    // current directory are abandoned.
                    stats.errors_total = stats.errors_total + 1;
                    proof {
                        lemma_clean_entries_concat(
                            entries@.take(i as int + 1),
                            rest,
                            config.since,
                            now,
                            config.dry_run,
                            skip_date_check,
                        );
                    }
                    return Ok(stats);
                }
            },
            FsEntry::Dir { size, created, entries: sub_entries, .. } => {
                if is_eligible(skip_date_check, &config.since, created, now) {
                    proof {
                        lemma_elem_totals(entries@, i as int);
                    }
                    // Once this directory qualified (or inherited
                    // eligibility), everything inside it is removed
                    // unconditionally: recurse with the check skipped.
                    let sub = match remove_dir_contents(e, config, now, true) {
                        Ok(sub) => sub,
                        Err(_) => unreached(),
                    };
                    proof {
                        lemma_clean_bounds(sub_entries@, config.since, now, config.dry_run, true);
                    }
                    stats.add(sub);
                    match remove_entry(e, config) {
                        Ok(_) => {
                            stats.removed_bytes = stats.removed_bytes + *size;
                            stats.removed_count = stats.removed_count + 1;
                        },
                        Err(_) => {
                            stats.errors_total = stats.errors_total + 1;
                        },
                    }
                    proof {
                        lemma_plus_assoc(
                            spec_clean_entries(
                                pre,
                                config.since,
                                now,
                                config.dry_run,
                                skip_date_check,
                            ),
                            spec_clean_entries(sub_entries@, config.since, now, config.dry_run, true),
                            crate::fstree::spec_remove_outcome(
                                *size,
                                cur.spec_remove_fails(),
                                config.dry_run,
                            ),
                        );
                    }
                }
            },
        }
        i = i + 1;
    }
    proof {
        assert(entries@.take(entries@.len() as int) =~= entries@);
    }
    Ok(stats)
}

/// One root directory handed to the walker by discovery, and whether
/// it currently exists on the machine.
pub struct Root {
    pub exists: bool,
    pub tree: FsEntry,
}

/// What became of one root: skipped because it does not exist, failed
/// because it cannot be listed, or cleaned with these statistics.
pub enum RootOutcome {
    Missing,
    Failed,
    Cleaned(Stats),
}

/// The outcome the cleaner owes for one root: a missing root is
/// silently skipped, an unlistable one fails without statistics, and
/// any other is cleaned with the age filter genuinely evaluated for
/// its immediate entries.
pub open spec fn spec_root_outcome_matches(
    root: Root,
    o: RootOutcome,
    since: Option<u128>,
    now: u128,
    dry_run: bool,
) -> bool {
    match o {
        RootOutcome::Missing => !root.exists,
        RootOutcome::Failed => root.exists && !(root.tree is Dir),
        RootOutcome::Cleaned(stats) => root.exists && root.tree is Dir && stats@
            == spec_clean_entries(root.tree->Dir_entries@, since, now, dry_run, false),
    }
}

/// Cleans every root that exists, with the age filter armed
/// (`skip_date_check` false) at the top of each, and reports what
/// became of each root, in order.
pub fn begin_cleaning(roots: &Vec<Root>, config: &Config, now: u128) -> (outcomes: Vec<
    RootOutcome,
>)
    requires
        forall|k: int|
            0 <= k < roots@.len() ==> (#[trigger] roots@[k]).tree.total_entries() <= u64::MAX
                && roots@[k].tree.total_bytes() <= u64::MAX,
    ensures
        outcomes@.len() == roots@.len(),
        forall|k: int|
            0 <= k < roots@.len() ==> spec_root_outcome_matches(
                roots@[k],
                #[trigger] outcomes@[k],
                config.since,
                now,
                config.dry_run,
            ),
{
    let mut outcomes: Vec<RootOutcome> = Vec::new();
    let mut i: usize = 0;
    while i < roots.len()
        invariant
            i <= roots.len(),
            outcomes@.len() == i,
            forall|k: int|
                0 <= k < roots@.len() ==> (#[trigger] roots@[k]).tree.total_entries() <= u64::MAX
                    && roots@[k].tree.total_bytes() <= u64::MAX,
            forall|k: int|
                0 <= k < i ==> spec_root_outcome_matches(
                    roots@[k],
                    #[trigger] outcomes@[k],
                    config.since,
                    now,
                    config.dry_run,
                ),
        decreases roots.len() - i,
    {
        let root = &roots[i];
        let outcome = if !root.exists {
            RootOutcome::Missing
        } else {
            match remove_dir_contents(&root.tree, config, now, false) {
                Ok(stats) => RootOutcome::Cleaned(stats),
                Err(_) => RootOutcome::Failed,
            }
        };
        outcomes.push(outcome);
        i = i + 1;
    }
    outcomes
}

} // verus!
