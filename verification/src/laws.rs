//! The laws of the cleaning engine: what holds of every tree, every
//! cutoff and every run mode, proved from the specification in
//! [`crate::fstree`].

use crate::age::{spec_eligible, spec_older_than};
use crate::fstree::{
    lemma_clean_entries_concat, lemma_clean_singleton, spec_clean_entries, spec_entry_contrib,
    spec_entry_stops, spec_remove_outcome, spec_stops_early, FsEntry,
};
use crate::stats::{lemma_plus_zero, SpecStats};
use vstd::prelude::*;

verus! {

/// Age cascade: once a directory is older than the cutoff, cleaning
/// its parent with that cutoff removes the directory and the one file
/// inside it, even though the file itself is newer than the cutoff —
/// the file's own age is irrelevant once its parent qualified.
pub proof fn age_cascade(d: FsEntry, f: FsEntry, cutoff: u128, now: u128, dry_run: bool)
    requires
        d matches FsEntry::Dir { created: dc, remove_fails: dfails, entries: des, .. } && des@
            == seq![f] && !dfails && spec_older_than(dc, now, cutoff),
        f matches FsEntry::File { created: fc, remove_fails: ffails, .. } && !ffails
            && !spec_older_than(fc, now, cutoff),
    ensures
        spec_clean_entries(seq![d], Some(cutoff), now, dry_run, false) == (SpecStats {
            errors_total: 0,
            removed_bytes: d.total_bytes(),
            removed_count: 2,
        }),
{
    let since = Some(cutoff);
    lemma_clean_singleton(d, since, now, dry_run, false);
    lemma_clean_singleton(f, since, now, dry_run, true);
    assert(seq![f].drop_first() =~= Seq::<FsEntry>::empty());
    assert(crate::fstree::seq_total_bytes(Seq::<FsEntry>::empty()) == 0);
    assert(crate::fstree::seq_total_bytes(seq![f]) == f.total_bytes());
    assert(spec_clean_entries(seq![d], since, now, dry_run, false) =~= SpecStats {
        errors_total: 0,
        removed_bytes: d.total_bytes(),
        removed_count: 2,
    });
}

/// Age exclusion: an entry newer than the cutoff, met where no
/// eligibility is inherited, is neither removed nor recursed into nor
/// counted anywhere: appending it to a directory's entries leaves the
/// statistics exactly as they were.
pub proof fn age_exclusion(s: Seq<FsEntry>, f: FsEntry, cutoff: u128, now: u128, dry_run: bool)
    requires
        !(f is MetaUnreadable),
        !spec_older_than(f.spec_created(), now, cutoff),
    ensures
        spec_clean_entries(s.push(f), Some(cutoff), now, dry_run, false) == spec_clean_entries(
            s,
            Some(cutoff),
            now,
            dry_run,
            false,
        ),
{
    let since = Some(cutoff);
    assert(s.push(f) =~= s + seq![f]);
    lemma_clean_singleton(f, since, now, dry_run, false);
    lemma_clean_entries_concat(s, seq![f], since, now, dry_run, false);
    if !spec_stops_early(s, since, now, false) {
        lemma_plus_zero(spec_clean_entries(s, since, now, dry_run, false));
    }
}

/// Unreadable creation time is conservative: an entry whose creation
/// time cannot be read is never removed, whatever the cutoff. The
/// failed reading is surfaced as a logged warning and deliberately not
/// counted in `errors_total`: it is a filtering limitation, not an
/// operation failure, so the entry contributes nothing at all.
pub proof fn unreadable_creation_time_conservative(
    s: Seq<FsEntry>,
    f: FsEntry,
    cutoff: u128,
    now: u128,
    dry_run: bool,
)
    requires
        !(f is MetaUnreadable),
        f.spec_created() is Unreadable,
    ensures
        spec_clean_entries(s.push(f), Some(cutoff), now, dry_run, false) == spec_clean_entries(
            s,
            Some(cutoff),
            now,
            dry_run,
            false,
        ),
{
    age_exclusion(s, f, cutoff, now, dry_run);
}

/// Whether every removal that cleaning `s` attempts would succeed:
/// nothing is demanded of entries the scan never reaches, never finds
/// eligible, or never tries to remove.
pub open spec fn spec_removals_succeed(
    s: Seq<FsEntry>,
    since: Option<u128>,
    now: u128,
    skip: bool,
) -> bool
    decreases s, 0int,
{
    if s.len() == 0 {
        true
    } else if spec_entry_stops(s[0], since, now, skip) {
        true
    } else {
        spec_entry_removals_succeed(s[0], since, now, skip) && spec_removals_succeed(
            s.drop_first(),
            since,
            now,
            skip,
        )
    }
}

/// Whether every removal that processing the one entry `e` attempts
/// would succeed.
pub open spec fn spec_entry_removals_succeed(
    e: FsEntry,
    since: Option<u128>,
    now: u128,
    skip: bool,
) -> bool
    decreases e, 1int,
{
    match e {
        FsEntry::MetaUnreadable => true,
        FsEntry::File { created, remove_fails, .. } => spec_eligible(skip, since, created, now)
            ==> !remove_fails,
        FsEntry::Dir { created, remove_fails, entries, .. } => spec_eligible(
            skip,
            since,
            created,
            now,
        ) ==> (!remove_fails && spec_removals_succeed(entries@, since, now, true)),
        FsEntry::DirUnlistable { .. } => true,
    }
}

/// Dry-run purity: where every removal the scan attempts would
/// succeed, a dry run computes exactly the statistics that a real run
/// computes; it only leaves the disk untouched. (Where some attempted
/// removal fails, the two runs differ by design: the dry run counts
/// the entry as removed, the real one as an error.)
pub proof fn dry_run_purity(s: Seq<FsEntry>, since: Option<u128>, now: u128, skip: bool)
    requires
        spec_removals_succeed(s, since, now, skip),
    ensures
        spec_clean_entries(s, since, now, true, skip) == spec_clean_entries(
            s,
            since,
            now,
            false,
            skip,
        ),
    decreases s, 0int,
{
    if s.len() > 0 {
        if spec_entry_stops(s[0], since, now, skip) {
            assert(spec_clean_entries(s, since, now, true, skip) == spec_entry_contrib(
                s[0],
                since,
                now,
                true,
                skip,
            ));
            assert(spec_clean_entries(s, since, now, false, skip) == spec_entry_contrib(
                s[0],
                since,
                now,
                false,
                skip,
            ));
        } else {
            entry_dry_run_purity(s[0], since, now, skip);
            dry_run_purity(s.drop_first(), since, now, skip);
            assert(spec_clean_entries(s, since, now, true, skip) == spec_entry_contrib(
                s[0],
                since,
                now,
                true,
                skip,
            ).plus(spec_clean_entries(s.drop_first(), since, now, true, skip)));
            assert(spec_clean_entries(s, since, now, false, skip) == spec_entry_contrib(
                s[0],
                since,
                now,
                false,
                skip,
            ).plus(spec_clean_entries(s.drop_first(), since, now, false, skip)));
        }
    } else {
        assert(spec_clean_entries(s, since, now, true, skip) == SpecStats::zero());
        assert(spec_clean_entries(s, since, now, false, skip) == SpecStats::zero());
    }
}

proof fn entry_dry_run_purity(e: FsEntry, since: Option<u128>, now: u128, skip: bool)
    requires
        spec_entry_removals_succeed(e, since, now, skip),
    ensures
        spec_entry_contrib(e, since, now, true, skip) == spec_entry_contrib(
            e,
            since,
            now,
            false,
            skip,
        ),
    decreases e, 1int,
{
    match e {
        FsEntry::Dir { created, entries, .. } => {
            if spec_eligible(skip, since, created, now) {
                dry_run_purity(entries@, since, now, true);
            }
        },
        _ => {},
    }
}

/// Additivity: a directory's statistics are the sum of its entries'
/// contributions. For a parent holding exactly the subdirectories `a`
/// and `b`, the removal count is the count from inside `a`, plus the
/// count from inside `b`, plus the entries removed directly at the
/// parent's level (`a` and `b` themselves, where their removal
/// succeeds).
pub proof fn additivity(
    a: FsEntry,
    b: FsEntry,
    since: Option<u128>,
    now: u128,
    dry_run: bool,
    skip: bool,
)
    requires
        a matches FsEntry::Dir { created: ac, .. } && spec_eligible(skip, since, ac, now),
        b matches FsEntry::Dir { created: bc, .. } && spec_eligible(skip, since, bc, now),
    ensures
        spec_clean_entries(seq![a, b], since, now, dry_run, skip) == spec_entry_contrib(
            a,
            since,
            now,
            dry_run,
            skip,
        ).plus(spec_entry_contrib(b, since, now, dry_run, skip)),
        spec_clean_entries(seq![a, b], since, now, dry_run, skip).removed_count
            == spec_clean_entries(a->Dir_entries@, since, now, dry_run, true).removed_count
            + spec_clean_entries(b->Dir_entries@, since, now, dry_run, true).removed_count
            + spec_remove_outcome(a->Dir_size, a.spec_remove_fails(), dry_run).removed_count
            + spec_remove_outcome(b->Dir_size, b.spec_remove_fails(), dry_run).removed_count,
{
    assert(seq![a, b] =~= seq![a] + seq![b]);
    lemma_clean_singleton(a, since, now, dry_run, skip);
    lemma_clean_singleton(b, since, now, dry_run, skip);
    lemma_clean_entries_concat(seq![a], seq![b], since, now, dry_run, skip);
}

/// Whether `e` is a file that the scan would find eligible and whose
/// removal would succeed.
pub open spec fn spec_removable_file(
    e: FsEntry,
    since: Option<u128>,
    now: u128,
    skip: bool,
) -> bool {
    &&& e matches FsEntry::File { created, remove_fails, .. }
    &&& spec_eligible(skip, since, created, now)
    &&& !remove_fails
}

/// Fault isolation: where the metadata read fails for exactly one
/// entry among a directory's entries, and every other entry is an
/// eligible file whose removal succeeds, exactly one error is recorded
/// and every one of the other entries is still removed.
pub proof fn fault_isolation(
    s: Seq<FsEntry>,
    j: int,
    since: Option<u128>,
    now: u128,
    dry_run: bool,
    skip: bool,
)
    requires
        0 <= j < s.len(),
        s[j] is MetaUnreadable,
        forall|k: int|
            0 <= k < s.len() && k != j ==> spec_removable_file(#[trigger] s[k], since, now, skip),
    ensures
        spec_clean_entries(s, since, now, dry_run, skip).errors_total == 1,
        spec_clean_entries(s, since, now, dry_run, skip).removed_count == s.len() - 1,
    decreases s.len(),
{
    let rest = s.drop_first();
    if j == 0 {
        assert forall|k: int| 0 <= k < rest.len() implies spec_removable_file(
            #[trigger] rest[k],
            since,
            now,
            skip,
        ) by {
            assert(rest[k] == s[k + 1]);
        }
        all_eligible_files_removed(rest, since, now, dry_run, skip);
        assert(spec_clean_entries(s, since, now, dry_run, skip) == spec_entry_contrib(
            s[0],
            since,
            now,
            dry_run,
            skip,
        ).plus(spec_clean_entries(rest, since, now, dry_run, skip)));
        assert(spec_entry_contrib(s[0], since, now, dry_run, skip) == SpecStats::one_error());
    } else {
        assert(spec_removable_file(s[0], since, now, skip));
        assert(rest[j - 1] == s[j]);
        assert forall|k: int| 0 <= k < rest.len() && k != j - 1 implies spec_removable_file(
            #[trigger] rest[k],
            since,
            now,
            skip,
        ) by {
            assert(rest[k] == s[k + 1]);
        }
        fault_isolation(rest, j - 1, since, now, dry_run, skip);
        assert(spec_clean_entries(s, since, now, dry_run, skip) == spec_entry_contrib(
            s[0],
            since,
            now,
            dry_run,
            skip,
        ).plus(spec_clean_entries(rest, since, now, dry_run, skip)));
        assert(spec_entry_contrib(s[0], since, now, dry_run, skip).removed_count == 1);
        assert(spec_entry_contrib(s[0], since, now, dry_run, skip).errors_total == 0);
    }
}

/// A directory whose entries are all eligible files with succeeding
/// removals is emptied completely, with no error.
pub proof fn all_eligible_files_removed(
    s: Seq<FsEntry>,
    since: Option<u128>,
    now: u128,
    dry_run: bool,
    skip: bool,
)
    requires
        forall|k: int|
            0 <= k < s.len() ==> spec_removable_file(#[trigger] s[k], since, now, skip),
    ensures
        spec_clean_entries(s, since, now, dry_run, skip).errors_total == 0,
        spec_clean_entries(s, since, now, dry_run, skip).removed_count == s.len(),
    decreases s.len(),
{
    if s.len() > 0 {
        let rest = s.drop_first();
        assert(spec_removable_file(s[0], since, now, skip));
        assert forall|k: int| 0 <= k < rest.len() implies spec_removable_file(
            #[trigger] rest[k],
            since,
            now,
            skip,
        ) by {
            assert(rest[k] == s[k + 1]);
        }
        all_eligible_files_removed(rest, since, now, dry_run, skip);
        assert(!spec_entry_stops(s[0], since, now, skip));
        assert(spec_clean_entries(s, since, now, dry_run, skip) == spec_entry_contrib(
            s[0],
            since,
            now,
            dry_run,
            skip,
        ).plus(spec_clean_entries(rest, since, now, dry_run, skip)));
        assert(spec_entry_contrib(s[0], since, now, dry_run, skip).removed_count == 1);
        assert(spec_entry_contrib(s[0], since, now, dry_run, skip).errors_total == 0);
    }
}

} // verus!
