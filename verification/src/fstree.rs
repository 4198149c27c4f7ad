//! Model of one snapshot of a directory tree, together with the answer
//! the filesystem would give to each operation the cleaner performs:
//! metadata reads, directory listings and removals. The cleaning
//! algorithm is specified here as recursive functions over this model.

use crate::age::{spec_eligible, CreationTime};
use crate::stats::{lemma_plus_assoc, lemma_plus_zero, SpecStats};
use vstd::prelude::*;

verus! {

/// One filesystem entry as the walker meets it.
pub enum FsEntry {
    /// An entry whose metadata cannot be read: it is left untouched and
    /// counted as one error.
    MetaUnreadable,
    /// A file: its size, the outcome of reading its creation time, and
    /// whether the OS would refuse to remove it.
    File { size: u64, created: CreationTime, remove_fails: bool },
    /// A directory that can be listed, with the entries the listing
    /// yields.
    Dir { size: u64, created: CreationTime, remove_fails: bool, entries: Vec<FsEntry> },
    /// A directory whose listing the OS refuses: recursing into it
    /// fails, which aborts the remaining work of the directory that
    /// holds it.
    DirUnlistable { created: CreationTime },
}

impl FsEntry {
    /// The creation-time reading of this entry, where metadata could be
    /// read at all.
    pub open spec fn spec_created(self) -> CreationTime
        recommends
            !(self is MetaUnreadable),
    {
        match self {
            FsEntry::MetaUnreadable => CreationTime::Unreadable,
            FsEntry::File { created, .. } => created,
            FsEntry::Dir { created, .. } => created,
            FsEntry::DirUnlistable { created } => created,
        }
    }

    /// Whether the OS would refuse to remove this entry, for the
    /// entries on which a removal is ever attempted.
    pub open spec fn spec_remove_fails(self) -> bool
        recommends
            self is File || self is Dir,
    {
        match self {
            FsEntry::File { remove_fails, .. } => remove_fails,
            FsEntry::Dir { remove_fails, .. } => remove_fails,
            _ => false,
        }
    }

    /// Number of entries in the subtree rooted here, this entry
    /// included.
    pub open spec fn total_entries(self) -> int
        decreases self,
    {
        match self {
            FsEntry::Dir { entries, .. } => 1 + seq_total_entries(entries@),
            _ => 1,
        }
    }

    /// Sum of the sizes of all entries in the subtree rooted here.
    pub open spec fn total_bytes(self) -> int
        decreases self,
    {
        match self {
            FsEntry::File { size, .. } => size as int,
            FsEntry::Dir { size, entries, .. } => size + seq_total_bytes(entries@),
            _ => 0,
        }
    }
}

/// Number of entries in all the subtrees rooted at `s`.
pub open spec fn seq_total_entries(s: Seq<FsEntry>) -> int
    decreases s,
{
    if s.len() == 0 {
        0
    } else {
        s[0].total_entries() + seq_total_entries(s.drop_first())
    }
}

/// Sum of the sizes of all entries in the subtrees rooted at `s`.
pub open spec fn seq_total_bytes(s: Seq<FsEntry>) -> int
    decreases s,
{
    if s.len() == 0 {
        0
    } else {
        s[0].total_bytes() + seq_total_bytes(s.drop_first())
    }
}

/// What one removal attempt contributes to the statistics: on success
/// (a dry run never touches the OS and always succeeds) the entry's
/// size and one removed entry; on failure one error, and the entry
/// stays on disk.
pub open spec fn spec_remove_outcome(size: u64, remove_fails: bool, dry_run: bool) -> SpecStats {
    if dry_run || !remove_fails {
        SpecStats { errors_total: 0, removed_bytes: size as int, removed_count: 1 }
    } else {
        SpecStats { errors_total: 1, removed_bytes: 0, removed_count: 0 }
    }
}

/// Whether processing entry `e` aborts the remaining work of the
/// directory that holds it: exactly when `e` is eligible but cannot be
/// listed, so the recursive call into it fails.
pub open spec fn spec_entry_stops(e: FsEntry, since: Option<u128>, now: u128, skip: bool) -> bool {
    e matches FsEntry::DirUnlistable { created } && spec_eligible(skip, since, created, now)
}

/// What entry `e` contributes to its directory's statistics.
///
/// An entry whose metadata cannot be read contributes one error. An
/// ineligible entry contributes nothing: it is neither removed nor
/// counted. An eligible file contributes its removal outcome. An
/// eligible directory contributes the statistics of cleaning its
/// entries with the age check skipped, plus its own removal outcome;
/// one that cannot be listed contributes one error.
pub open spec fn spec_entry_contrib(
    e: FsEntry,
    since: Option<u128>,
    now: u128,
    dry_run: bool,
    skip: bool,
) -> SpecStats
    decreases e, 1int,
{
    match e {
        FsEntry::MetaUnreadable => SpecStats::one_error(),
        FsEntry::File { size, created, remove_fails } => {
            if spec_eligible(skip, since, created, now) {
                spec_remove_outcome(size, remove_fails, dry_run)
            } else {
                SpecStats::zero()
            }
        },
        FsEntry::Dir { size, created, remove_fails, entries } => {
            if spec_eligible(skip, since, created, now) {
                spec_clean_entries(entries@, since, now, dry_run, true).plus(
                    spec_remove_outcome(size, remove_fails, dry_run),
                )
            } else {
                SpecStats::zero()
            }
        },
        FsEntry::DirUnlistable { created } => {
            if spec_eligible(skip, since, created, now) {
                SpecStats::one_error()
            } else {
                SpecStats::zero()
            }
        },
    }
}

/// Statistics of cleaning the entries `s` of one directory, in order:
/// each entry adds its contribution, and an entry that stops the scan
/// (an eligible directory that cannot be listed) leaves the entries
/// after it unprocessed.
pub open spec fn spec_clean_entries(
    s: Seq<FsEntry>,
    since: Option<u128>,
    now: u128,
    dry_run: bool,
    skip: bool,
) -> SpecStats
    decreases s, 0int,
{
    if s.len() == 0 {
        SpecStats::zero()
    } else if spec_entry_stops(s[0], since, now, skip) {
        spec_entry_contrib(s[0], since, now, dry_run, skip)
    } else {
        spec_entry_contrib(s[0], since, now, dry_run, skip).plus(
            spec_clean_entries(s.drop_first(), since, now, dry_run, skip),
        )
    }
}

/// Whether cleaning the entries `s` stops before their end.
pub open spec fn spec_stops_early(
    s: Seq<FsEntry>,
    since: Option<u128>,
    now: u128,
    skip: bool,
) -> bool
    decreases s,
{
    if s.len() == 0 {
        false
    } else {
        spec_entry_stops(s[0], since, now, skip) || spec_stops_early(
            s.drop_first(),
            since,
            now,
            skip,
        )
    }
}

/// Every subtree holds at least its root entry, and byte totals are
/// never negative.
pub proof fn lemma_entry_totals_pos(e: FsEntry)
    ensures
        e.total_entries() >= 1,
        e.total_bytes() >= 0,
    decreases e, 1int,
{
    match e {
        FsEntry::Dir { entries, .. } => lemma_seq_totals_nonneg(entries@),
        _ => {},
    }
}

/// A sequence of subtrees holds at least one entry per element, and its
/// byte total is never negative.
pub proof fn lemma_seq_totals_nonneg(s: Seq<FsEntry>)
    ensures
        seq_total_entries(s) >= s.len(),
        seq_total_bytes(s) >= 0,
    decreases s, 0int,
{
    if s.len() > 0 {
        lemma_entry_totals_pos(s[0]);
        lemma_seq_totals_nonneg(s.drop_first());
    }
}

/// The entry and byte totals are additive over concatenation.
pub proof fn lemma_totals_concat(a: Seq<FsEntry>, b: Seq<FsEntry>)
    ensures
        seq_total_entries(a + b) == seq_total_entries(a) + seq_total_entries(b),
        seq_total_bytes(a + b) == seq_total_bytes(a) + seq_total_bytes(b),
    decreases a,
{
    if a.len() == 0 {
        assert(a + b =~= b);
    } else {
        assert((a + b)[0] == a[0]);
        assert((a + b).drop_first() =~= a.drop_first() + b);
        lemma_totals_concat(a.drop_first(), b);
    }
}

/// Each subtree's totals are bounded by the totals of the sequence that
/// holds it.
pub proof fn lemma_elem_totals(s: Seq<FsEntry>, i: int)
    requires
        0 <= i < s.len(),
    ensures
        s[i].total_entries() <= seq_total_entries(s),
        s[i].total_bytes() <= seq_total_bytes(s),
    decreases s,
{
    if i == 0 {
        lemma_seq_totals_nonneg(s.drop_first());
    } else {
        lemma_entry_totals_pos(s[0]);
        assert(s.drop_first()[i - 1] == s[i]);
        lemma_elem_totals(s.drop_first(), i - 1);
    }
}

/// What one entry contributes is never negative, removes and fails at
/// most once per entry of its subtree, and removes at most the bytes
/// its subtree holds.
pub proof fn lemma_contrib_bounds(
    e: FsEntry,
    since: Option<u128>,
    now: u128,
    dry_run: bool,
    skip: bool,
)
    ensures
        ({
            let st = spec_entry_contrib(e, since, now, dry_run, skip);
            &&& 0 <= st.errors_total
            &&& 0 <= st.removed_bytes
            &&& 0 <= st.removed_count
            &&& st.removed_count + st.errors_total <= e.total_entries()
            &&& st.removed_bytes <= e.total_bytes()
        }),
    decreases e, 1int,
{
    match e {
        FsEntry::Dir { entries, .. } => {
            lemma_clean_bounds(entries@, since, now, dry_run, true);
            lemma_seq_totals_nonneg(entries@);
        },
        _ => {},
    }
}

/// The statistics of cleaning a directory's entries are never negative,
/// remove and fail at most once per entry visited, and remove at most
/// the bytes the entries hold.
pub proof fn lemma_clean_bounds(
    s: Seq<FsEntry>,
    since: Option<u128>,
    now: u128,
    dry_run: bool,
    skip: bool,
)
    ensures
        ({
            let st = spec_clean_entries(s, since, now, dry_run, skip);
            &&& 0 <= st.errors_total
            &&& 0 <= st.removed_bytes
            &&& 0 <= st.removed_count
            &&& st.removed_count + st.errors_total <= seq_total_entries(s)
            &&& st.removed_bytes <= seq_total_bytes(s)
        }),
    decreases s, 0int,
{
    if s.len() > 0 {
        lemma_contrib_bounds(s[0], since, now, dry_run, skip);
        lemma_clean_bounds(s.drop_first(), since, now, dry_run, skip);
        lemma_seq_totals_nonneg(s.drop_first());
        lemma_entry_totals_pos(s[0]);
    }
}

/// Cleaning a concatenation: the left part is cleaned first; the right
/// part is reached, and its statistics added, exactly when the left
/// part does not stop the scan.
pub proof fn lemma_clean_entries_concat(
    a: Seq<FsEntry>,
    b: Seq<FsEntry>,
    since: Option<u128>,
    now: u128,
    dry_run: bool,
    skip: bool,
)
    ensures
        spec_stops_early(a + b, since, now, skip) == (spec_stops_early(a, since, now, skip)
            || spec_stops_early(b, since, now, skip)),
        spec_clean_entries(a + b, since, now, dry_run, skip) == if spec_stops_early(
            a,
            since,
            now,
            skip,
        ) {
            spec_clean_entries(a, since, now, dry_run, skip)
        } else {
            spec_clean_entries(a, since, now, dry_run, skip).plus(
                spec_clean_entries(b, since, now, dry_run, skip),
            )
        },
    decreases a,
{
    if a.len() == 0 {
        assert(a + b =~= b);
        lemma_plus_zero(spec_clean_entries(b, since, now, dry_run, skip));
    } else {
        assert((a + b)[0] == a[0]);
        assert((a + b).drop_first() =~= a.drop_first() + b);
        lemma_clean_entries_concat(a.drop_first(), b, since, now, dry_run, skip);
        if !spec_entry_stops(a[0], since, now, skip) && !spec_stops_early(
            a.drop_first(),
            since,
            now,
            skip,
        ) {
            lemma_plus_assoc(
                spec_entry_contrib(a[0], since, now, dry_run, skip),
                spec_clean_entries(a.drop_first(), since, now, dry_run, skip),
                spec_clean_entries(b, since, now, dry_run, skip),
            );
        }
    }
}

/// Cleaning a single entry yields exactly that entry's contribution.
pub proof fn lemma_clean_singleton(
    e: FsEntry,
    since: Option<u128>,
    now: u128,
    dry_run: bool,
    skip: bool,
)
    ensures
        spec_clean_entries(seq![e], since, now, dry_run, skip) == spec_entry_contrib(
            e,
            since,
            now,
            dry_run,
            skip,
        ),
        spec_stops_early(seq![e], since, now, skip) == spec_entry_stops(e, since, now, skip),
{
    assert(seq![e].drop_first() =~= Seq::<FsEntry>::empty());
    assert(spec_clean_entries(Seq::<FsEntry>::empty(), since, now, dry_run, skip)
        == SpecStats::zero());
    assert(!spec_stops_early(Seq::<FsEntry>::empty(), since, now, skip));
    lemma_plus_zero(spec_entry_contrib(e, since, now, dry_run, skip));
}

} // verus!
