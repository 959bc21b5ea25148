//! The component data model: one discovered cleanup target, its filter
//! policy, traversal bounds, and running statistics, together with the
//! measurement (indexing) pass over a sequence of discovered entries.

use vstd::prelude::*;

use crate::paths::extension_of;
use crate::paths::extension_matches;

verus! {

/// One filesystem entry discovered under a component's root, reduced to the
/// plain facts the engine reads: its path, its depth below the root, what
/// kind of object it is, and its byte length.
#[derive(Clone, Debug)]
pub struct FsEntry {
    pub path: String,
    pub depth: usize,
    pub is_file: bool,
    pub is_dir: bool,
    pub size: u64,
}

/// A component's filter policy: either every entry under the root is a
/// candidate, or only files whose extension matches a fixed value.
#[derive(Clone, Debug)]
pub enum FilterPolicy {
    Unrestricted,
    ByExtension(String),
}

/// One cleanup target with its filter, inclusive depth bounds, and the
/// statistics the measuring pass fills in.
#[derive(Clone, Debug)]
pub struct TempComponent {
    pub path: String,
    pub filter: FilterPolicy,
    pub min_depth: usize,
    pub max_depth: usize,
    pub count: u64,
    pub total_bytes: u64,
    pub needs_reboot: bool,
}

/// The shared visitor precondition: an extension-filtered component only
/// touches files whose extension matches; an unrestricted one touches
/// everything.
pub open spec fn matches_filter(f: FilterPolicy, e: FsEntry) -> bool {
    match f {
        FilterPolicy::Unrestricted => true,
        FilterPolicy::ByExtension(x) => e.is_file && extension_of(e.path@) == Some(x@),
    }
}

/// Whether the measuring pass counts this entry: only files are counted,
/// and only those the filter admits.
pub open spec fn counts_entry(f: FilterPolicy, e: FsEntry) -> bool {
    e.is_file && matches_filter(f, e)
}

/// How many entries of `s` the measuring pass counts.
pub open spec fn counted(f: FilterPolicy, s: Seq<FsEntry>) -> nat
    decreases s.len(),
{
    if s.len() == 0 {
        0
    } else {
        counted(f, s.drop_last()) + (if counts_entry(f, s.last()) {
            1nat
        } else {
            0nat
        })
    }
}

/// The ideal (unbounded) sum of the byte lengths of the counted entries.
pub open spec fn summed(f: FilterPolicy, s: Seq<FsEntry>) -> int
    decreases s.len(),
{
    if s.len() == 0 {
        0
    } else {
        summed(f, s.drop_last()) + (if counts_entry(f, s.last()) {
            s.last().size as int
        } else {
            0
        })
    }
}

/// An ideal total clipped to what a `u64` can hold.
pub open spec fn sat64(x: int) -> u64 {
    if x > u64::MAX {
        u64::MAX
    } else if x < 0 {
        0
    } else {
        x as u64
    }
}

/// A component is retained in the working set exactly when indexing found
/// more than one file under it.
pub open spec fn spec_retained(c: TempComponent) -> bool {
    c.count > 1
}

/// One measuring step: seeing one more entry raises the count by exactly
/// one when the entry is a file the filter admits, and by nothing —
/// leaving the byte total alone too — for a directory or a non-matching
/// file.
pub proof fn lemma_measure_step(f: FilterPolicy, s: Seq<FsEntry>, e: FsEntry)
    ensures
        counted(f, s.push(e)) == counted(f, s) + (if counts_entry(f, e) {
            1nat
        } else {
            0nat
        }),
        summed(f, s.push(e)) == summed(f, s) + (if counts_entry(f, e) {
            e.size as int
        } else {
            0
        }),
{
    assert(s.push(e).drop_last() =~= s);
    assert(s.push(e).last() == e);
}

pub proof fn lemma_counted_le_len(f: FilterPolicy, s: Seq<FsEntry>)
    ensures
        counted(f, s) <= s.len(),
    decreases s.len(),
{
    if s.len() > 0 {
        lemma_counted_le_len(f, s.drop_last());
    }
}

pub proof fn lemma_summed_nonneg(f: FilterPolicy, s: Seq<FsEntry>)
    ensures
        summed(f, s) >= 0,
    decreases s.len(),
{
    if s.len() > 0 {
        lemma_summed_nonneg(f, s.drop_last());
    }
}

impl TempComponent {
    /// An unrestricted component: contents only (the root itself is never
    /// deleted), unbounded downward.
    pub fn new_clear(path: String) -> (c: TempComponent)
        ensures
            c.path == path,
            c.filter is Unrestricted,
            c.min_depth == 1,
            c.max_depth == usize::MAX,
            c.count == 0,
            c.total_bytes == 0,
            !c.needs_reboot,
    {
        TempComponent {
            path,
            filter: FilterPolicy::Unrestricted,
            min_depth: 1,
            max_depth: usize::MAX,
            count: 0,
            total_bytes: 0,
            needs_reboot: false,
        }
    }

    /// An extension-filtered component: direct children only.
    pub fn new_extension(path: String, ext: String) -> (c: TempComponent)
        ensures
            c.path == path,
            c.filter == FilterPolicy::ByExtension(ext),
            c.min_depth == 1,
            c.max_depth == 1,
            c.count == 0,
            c.total_bytes == 0,
            !c.needs_reboot,
    {
        TempComponent {
            path,
            filter: FilterPolicy::ByExtension(ext),
            min_depth: 1,
            max_depth: 1,
            count: 0,
            total_bytes: 0,
            needs_reboot: false,
        }
    }

    /// The measuring pass: add every counted entry to this component's
    /// statistics. Counts are exact; byte totals saturate at `u64::MAX`.
    pub fn index_entries(&mut self, entries: &Vec<FsEntry>)
        requires
            old(self).count + entries@.len() <= u64::MAX,
        ensures
            final(self).count == old(self).count + counted(old(self).filter, entries@),
            final(self).total_bytes == sat64(
                old(self).total_bytes + summed(old(self).filter, entries@),
            ),
            final(self).path == old(self).path,
            final(self).filter == old(self).filter,
            final(self).min_depth == old(self).min_depth,
            final(self).max_depth == old(self).max_depth,
            final(self).needs_reboot == old(self).needs_reboot,
    {
        let n = entries.len();
        for i in 0..n
            invariant
                n == entries@.len(),
                self.count == old(self).count + counted(old(self).filter, entries@.subrange(0, i as int)),
                self.total_bytes == sat64(
                    old(self).total_bytes + summed(old(self).filter, entries@.subrange(0, i as int)),
                ),
                self.path == old(self).path,
                self.filter == old(self).filter,
                self.min_depth == old(self).min_depth,
                self.max_depth == old(self).max_depth,
                self.needs_reboot == old(self).needs_reboot,
                old(self).count + n <= u64::MAX,
        {
            proof {
                let pre = entries@.subrange(0, i as int);
                assert(entries@.subrange(0, i + 1 as int).drop_last() =~= pre);
                assert(entries@.subrange(0, i + 1 as int).last() == entries@[i as int]);
                lemma_counted_le_len(old(self).filter, pre);
                lemma_summed_nonneg(old(self).filter, pre);
                lemma_summed_nonneg(old(self).filter, entries@.subrange(0, i + 1 as int));
            }
            let e = &entries[i];
            if e.is_file && entry_matches(&self.filter, e) {
                self.count = self.count + 1;
                self.total_bytes = self.total_bytes.saturating_add(e.size);
            }
        }
        proof {
            assert(entries@.subrange(0, n as int) =~= entries@);
        }
    }
}

/// Whether the filter admits this entry.
pub fn entry_matches(f: &FilterPolicy, e: &FsEntry) -> (b: bool)
    ensures
        b == matches_filter(*f, *e),
{
    match f {
        FilterPolicy::Unrestricted => true,
        FilterPolicy::ByExtension(x) => e.is_file && extension_matches(e.path.as_str(), x.as_str()),
    }
}

/// Whether indexing found enough under this component to keep it.
pub fn is_retained(c: &TempComponent) -> (b: bool)
    ensures
        b == spec_retained(*c),
{
    c.count > 1
}

/// Build a component over a resolved path, measure the given entries, and
/// keep it only if the path existed as a directory and more than one file
/// was counted. Catalog entries whose resolved path does not exist never
/// produce a component, and neither do near-empty locations.
pub fn component_from_entries(
    path: String,
    filter: FilterPolicy,
    min_depth: usize,
    max_depth: usize,
    exists_dir: bool,
    entries: &Vec<FsEntry>,
) -> (r: Option<TempComponent>)
    ensures
        r is Some <==> (exists_dir && counted(filter, entries@) > 1),
        r matches Some(c) ==> {
            &&& c.path == path
            &&& c.filter == filter
            &&& c.min_depth == min_depth
            &&& c.max_depth == max_depth
            &&& c.count == counted(filter, entries@)
            &&& c.total_bytes == sat64(summed(filter, entries@))
            &&& !c.needs_reboot
        },
{
    if !exists_dir {
        return None;
    }
    let n = entries.len();
    proof {
        assert(entries@.len() == n <= u64::MAX);
        lemma_counted_le_len(filter, entries@);
    }
    let mut c = TempComponent {
        path,
        filter,
        min_depth,
        max_depth,
        count: 0,
        total_bytes: 0,
        needs_reboot: false,
    };
    c.index_entries(entries);
    if is_retained(&c) {
        Some(c)
    } else {
        None
    }
}

/// Widen a legacy-backup component so the deletion pass includes the root
/// directory itself.
pub fn widen_root(c: &mut TempComponent)
    ensures
        final(c).min_depth == 0,
        final(c).path == old(c).path,
        final(c).filter == old(c).filter,
        final(c).max_depth == old(c).max_depth,
        final(c).count == old(c).count,
        final(c).total_bytes == old(c).total_bytes,
        final(c).needs_reboot == old(c).needs_reboot,
{
    c.min_depth = 0;
}

} // verus!
