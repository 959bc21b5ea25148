//! The deletion subsystem, modeled per entry. The engine walks a
//! component's tree twice — an immediate-delete pass, then a
//! deferred-delete pass over what survived — and each entry ends in
//! exactly one state: removed outright, registered for removal at the
//! next restart, left in place, or skipped by the filter. The walking and
//! the decisions are here; the shell performs the removals and reports
//! each outcome back.

use vstd::prelude::*;

use crate::component::FsEntry;
use crate::component::FilterPolicy;
use crate::component::TempComponent;
use crate::component::counted;
use crate::component::entry_matches;
use crate::component::matches_filter;
use crate::component::summed;
use crate::disk::walk_tree;

verus! {

/// Where one entry ends after the two removal passes.
#[derive(Clone, Copy, Debug, PartialEq, Eq, Structural)]
pub enum EntryFate {
    /// The immediate-delete pass removed it.
    Removed,
    /// Immediate removal failed, and registration for removal at the next
    /// restart succeeded.
    Deferred,
    /// Immediate removal failed and so did the registration; the entry is
    /// left in place and no error is surfaced.
    Left,
    /// The filter does not admit the entry (or it is neither a file nor a
    /// directory); no visitor touches it.
    Skipped,
}

/// Whether the removal passes act on this entry at all.
pub open spec fn spec_removal_target(f: FilterPolicy, e: FsEntry) -> bool {
    matches_filter(f, e) && (e.is_file || e.is_dir)
}

/// The fate of one entry, given whether it resisted immediate removal
/// (`locked`) and whether the deferred registration succeeded.
pub open spec fn spec_fate(f: FilterPolicy, e: FsEntry, locked: bool, registered: bool) -> EntryFate {
    if !spec_removal_target(f, e) {
        EntryFate::Skipped
    } else if !locked {
        EntryFate::Removed
    } else if registered {
        EntryFate::Deferred
    } else {
        EntryFate::Left
    }
}

/// The entries still on disk after the passes: everything whose fate is
/// not `Removed`. (Deferred entries remain until the restart.)
pub open spec fn remaining(f: FilterPolicy, es: Seq<FsEntry>, ls: Seq<bool>) -> Seq<FsEntry>
    decreases es.len(),
{
    if es.len() == 0 {
        Seq::empty()
    } else if !spec_removal_target(f, es.last()) || ls.last() {
        remaining(f, es.drop_last(), ls.drop_last()).push(es.last())
    } else {
        remaining(f, es.drop_last(), ls.drop_last())
    }
}

/// The lock flags of the entries that remain, in step with `remaining`.
pub open spec fn remaining_locks(f: FilterPolicy, es: Seq<FsEntry>, ls: Seq<bool>) -> Seq<bool>
    decreases es.len(),
{
    if es.len() == 0 {
        Seq::empty()
    } else if !spec_removal_target(f, es.last()) || ls.last() {
        remaining_locks(f, es.drop_last(), ls.drop_last()).push(ls.last())
    } else {
        remaining_locks(f, es.drop_last(), ls.drop_last())
    }
}

/// Whether the filter admits this entry as something the removal passes
/// touch.
pub fn is_removal_target(c: &TempComponent, e: &FsEntry) -> (b: bool)
    ensures
        b == spec_removal_target(c.filter, *e),
{
    (e.is_file || e.is_dir) && entry_matches(&c.filter, e)
}

/// Fold one deferred-registration outcome into the component: the flag is
/// set only for entries whose registration succeeded, and once set it
/// stays set.
pub fn record_deferred(c: &mut TempComponent, registered: bool)
    ensures
        final(c).needs_reboot == (old(c).needs_reboot || registered),
        final(c).path == old(c).path,
        final(c).filter == old(c).filter,
        final(c).min_depth == old(c).min_depth,
        final(c).max_depth == old(c).max_depth,
        final(c).count == old(c).count,
        final(c).total_bytes == old(c).total_bytes,
{
    if registered {
        c.needs_reboot = true;
    }
}

/// Exactly the entries of `entries` that a removal pass acts on, in
/// order: nothing the filter admits is dropped, and nothing else is kept.
pub fn filter_removal_targets(c: &TempComponent, entries: &Vec<FsEntry>) -> (r: Vec<FsEntry>)
    ensures
        r@ == entries@.filter(|e: FsEntry| spec_removal_target(c.filter, e)),
        forall|i: int| 0 <= i < r@.len() ==> entries@.contains(#[trigger] r@[i]),
{
    let n = entries.len();
    let mut r: Vec<FsEntry> = Vec::new();
    proof {
        reveal_with_fuel(Seq::<FsEntry>::filter, 2);
        assert(entries@.subrange(0, 0).filter(|e: FsEntry| spec_removal_target(c.filter, e))
            =~= Seq::<FsEntry>::empty());
    }
    for i in 0..n
        invariant
            n == entries@.len(),
            r@ == entries@.subrange(0, i as int).filter(
                |e: FsEntry| spec_removal_target(c.filter, e),
            ),
            forall|j: int| 0 <= j < r@.len() ==> entries@.contains(#[trigger] r@[j]),
    {
        proof {
            let pred = |e: FsEntry| spec_removal_target(c.filter, e);
            reveal_with_fuel(Seq::<FsEntry>::filter, 2);
            assert(entries@.subrange(0, i + 1 as int).drop_last() =~= entries@.subrange(
                0,
                i as int,
            ));
            assert(entries@.subrange(0, i + 1 as int).last() == entries@[i as int]);
            assert(entries@.subrange(0, i + 1 as int).filter(pred) == (if pred(
                entries@[i as int],
            ) {
                entries@.subrange(0, i as int).filter(pred).push(entries@[i as int])
            } else {
                entries@.subrange(0, i as int).filter(pred)
            }));
        }
        let e = &entries[i];
        if is_removal_target(c, e) {
            r.push(
                FsEntry {
                    path: e.path.clone(),
                    depth: e.depth,
                    is_file: e.is_file,
                    is_dir: e.is_dir,
                    size: e.size,
                },
            );
        }
    }
    proof {
        assert(entries@.subrange(0, n as int) =~= entries@);
    }
    r
}

/// Walk the component's tree and hand back exactly the walked entries its
/// filter admits — the selection is `filter_removal_targets`, whose
/// contract pins it for every walk outcome. Every handed-out entry lies
/// within the component's depth bounds and under its root, so an
/// extension-filtered component can never surrender a file of another
/// extension, nor a directory, and no pass ever touches a path outside
/// the component.
pub fn deletion_targets(c: &TempComponent) -> (r: Vec<FsEntry>)
    requires
        c.min_depth <= c.max_depth,
    ensures
        forall|i: int|
            0 <= i < r@.len() ==> spec_removal_target(c.filter, #[trigger] r@[i]),
        forall|i: int|
            0 <= i < r@.len() ==> c.min_depth <= (#[trigger] r@[i]).depth <= c.max_depth,
        forall|i: int|
            0 <= i < r@.len() ==> ((#[trigger] r@[i]).path@.len() >= c.path@.len() && r@[i].path@
                .subrange(0, c.path@.len() as int) == c.path@),
{
    let entries = walk_tree(&c.path, c.min_depth, c.max_depth);
    let r = filter_removal_targets(c, &entries);
    proof {
        assert forall|i: int| 0 <= i < r@.len() implies spec_removal_target(
            c.filter,
            #[trigger] r@[i],
        ) && c.min_depth <= r@[i].depth <= c.max_depth && (r@[i].path@.len() >= c.path@.len()
            && r@[i].path@.subrange(0, c.path@.len() as int) == c.path@) by {
            entries@.lemma_filter_pred(|e: FsEntry| spec_removal_target(c.filter, e), i);
            assert(entries@.contains(r@[i]));
            let j = choose|j: int| 0 <= j < entries@.len() && entries@[j] == r@[i];
        }
    }
    r
}

/// The fate of one entry, as the two passes decide it.
pub fn removal_fate(c: &TempComponent, e: &FsEntry, locked: bool, registered: bool) -> (r:
    EntryFate)
    ensures
        r == spec_fate(c.filter, *e, locked, registered),
{
    if !is_removal_target(c, e) {
        EntryFate::Skipped
    } else if !locked {
        EntryFate::Removed
    } else if registered {
        EntryFate::Deferred
    } else {
        EntryFate::Left
    }
}

/// The two removal passes over a component's entries, abstracted over
/// what the disk does: `locked[i]` says entry `i` resisted immediate
/// removal in both passes, `registered[i]` says its deferred registration
/// succeeded. Returns each entry's fate and sets `needs_reboot` exactly
/// when some entry was deferred.
pub fn removal_pass(
    c: &mut TempComponent,
    entries: &Vec<FsEntry>,
    locked: &Vec<bool>,
    registered: &Vec<bool>,
) -> (fates: Vec<EntryFate>)
    requires
        entries@.len() == locked@.len(),
        entries@.len() == registered@.len(),
    ensures
        fates@.len() == entries@.len(),
        forall|i: int|
            0 <= i < entries@.len() ==> fates@[i] == spec_fate(
                old(c).filter,
                #[trigger] entries@[i],
                locked@[i],
                registered@[i],
            ),
        final(c).needs_reboot == (old(c).needs_reboot || exists|i: int|
            0 <= i < entries@.len() && spec_fate(
                old(c).filter,
                #[trigger] entries@[i],
                locked@[i],
                registered@[i],
            ) == EntryFate::Deferred),
        final(c).path == old(c).path,
        final(c).filter == old(c).filter,
        final(c).min_depth == old(c).min_depth,
        final(c).max_depth == old(c).max_depth,
        final(c).count == old(c).count,
        final(c).total_bytes == old(c).total_bytes,
{
    let n = entries.len();
    let mut fates: Vec<EntryFate> = Vec::new();
    for i in 0..n
        invariant
            n == entries@.len(),
            n == locked@.len(),
            n == registered@.len(),
            fates@.len() == i,
            forall|j: int|
                0 <= j < i ==> fates@[j] == spec_fate(
                    old(c).filter,
                    #[trigger] entries@[j],
                    locked@[j],
                    registered@[j],
                ),
            c.needs_reboot == (old(c).needs_reboot || exists|j: int|
                0 <= j < i && spec_fate(
                    old(c).filter,
                    #[trigger] entries@[j],
                    locked@[j],
                    registered@[j],
                ) == EntryFate::Deferred),
            c.path == old(c).path,
            c.filter == old(c).filter,
            c.min_depth == old(c).min_depth,
            c.max_depth == old(c).max_depth,
            c.count == old(c).count,
            c.total_bytes == old(c).total_bytes,
    {
        let fate = removal_fate(c, &entries[i], locked[i], registered[i]);
        record_deferred(c, matches!(fate, EntryFate::Deferred));
        fates.push(fate);
    }
    fates
}

/// Running the removal passes a second time on what the first left
/// behind changes nothing: every surviving entry is either outside the
/// filter or still locked, so the second run removes nothing further.
pub proof fn lemma_removal_idempotent(f: FilterPolicy, es: Seq<FsEntry>, ls: Seq<bool>)
    requires
        es.len() == ls.len(),
    ensures
        remaining(f, remaining(f, es, ls), remaining_locks(f, es, ls)) == remaining(f, es, ls),
    decreases es.len(),
{
    if es.len() > 0 {
        lemma_removal_idempotent(f, es.drop_last(), ls.drop_last());
        let rd = remaining(f, es.drop_last(), ls.drop_last());
        let ld = remaining_locks(f, es.drop_last(), ls.drop_last());
        assert(rd.len() == ld.len()) by {
            lemma_remaining_lens(f, es.drop_last(), ls.drop_last());
        }
        if !spec_removal_target(f, es.last()) || ls.last() {
            let r = rd.push(es.last());
            let l = ld.push(ls.last());
            assert(r.drop_last() =~= rd);
            assert(l.drop_last() =~= ld);
            assert(remaining(f, r, l) =~= remaining(f, es, ls));
        }
    }
}

/// `remaining` and `remaining_locks` stay in step.
pub proof fn lemma_remaining_lens(f: FilterPolicy, es: Seq<FsEntry>, ls: Seq<bool>)
    ensures
        remaining(f, es, ls).len() == remaining_locks(f, es, ls).len(),
    decreases es.len(),
{
    if es.len() > 0 {
        lemma_remaining_lens(f, es.drop_last(), ls.drop_last());
    }
}

/// Deletion removes what was measured: a second, independent indexing
/// pass over what the removal passes left behind never counts more files
/// or more bytes than the first — what is gone stays gone, and only
/// entries that resisted removal (and entries the filter never touched)
/// can still be seen.
pub proof fn lemma_reindex_bounded(f: FilterPolicy, es: Seq<FsEntry>, ls: Seq<bool>)
    ensures
        counted(f, remaining(f, es, ls)) <= counted(f, es),
        summed(f, remaining(f, es, ls)) <= summed(f, es),
    decreases es.len(),
{
    if es.len() > 0 {
        lemma_reindex_bounded(f, es.drop_last(), ls.drop_last());
        if !spec_removal_target(f, es.last()) || ls.last() {
            let r = remaining(f, es.drop_last(), ls.drop_last()).push(es.last());
            assert(r.drop_last() =~= remaining(f, es.drop_last(), ls.drop_last()));
            assert(r.last() == es.last());
        }
    }
}

/// No visitor ever counts a directory: whatever the filter, only files
/// enter a component's statistics; and under an extension filter, every
/// counted or deleted entry is a file whose extension matches.
pub proof fn lemma_filter_discipline(f: FilterPolicy, e: FsEntry)
    ensures
        crate::component::counts_entry(f, e) ==> e.is_file,
        f matches FilterPolicy::ByExtension(x) ==> (crate::component::counts_entry(f, e)
            ==> e.is_file && crate::paths::extension_of(e.path@) == Some(x@)),
        f matches FilterPolicy::ByExtension(x) ==> (spec_removal_target(f, e) ==> e.is_file
            && crate::paths::extension_of(e.path@) == Some(x@)),
{
}

} // verus!
