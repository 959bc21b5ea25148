use kptemp::component::FilterPolicy;
use kptemp::component::FsEntry;
use kptemp::component::TempComponent;
use kptemp::component::component_from_entries;
use kptemp::component::entry_matches;
use kptemp::component::is_retained;
use kptemp::component::widen_root;
use kptemp::catalog::profile_dirs;
use kptemp::removal::EntryFate;
use kptemp::removal::filter_removal_targets;
use kptemp::removal::record_deferred;
use kptemp::removal::removal_fate;
use kptemp::removal::removal_pass;

fn file(path: &str, size: u64) -> FsEntry {
    FsEntry { path: path.to_string(), depth: 1, is_file: true, is_dir: false, size }
}

fn dir(path: &str) -> FsEntry {
    FsEntry { path: path.to_string(), depth: 1, is_file: false, is_dir: true, size: 0 }
}

#[test]
fn new_clear_bounds_exclude_the_root() {
    let c = TempComponent::new_clear("C:\\t".to_string());
    assert_eq!(c.min_depth, 1);
    assert_eq!(c.max_depth, usize::MAX);
    assert!(matches!(c.filter, FilterPolicy::Unrestricted));
    assert_eq!(c.count, 0);
    assert_eq!(c.total_bytes, 0);
    assert!(!c.needs_reboot);
}

#[test]
fn new_extension_bounds_are_direct_children_only() {
    let c = TempComponent::new_extension("C:\\t".to_string(), "tmp".to_string());
    assert_eq!(c.min_depth, 1);
    assert_eq!(c.max_depth, 1);
    assert!(matches!(c.filter, FilterPolicy::ByExtension(ref e) if e == "tmp"));
}

#[test]
fn five_plain_files_index_to_count_five() {
    // An unrestricted component over a directory of 5 plain files: the
    // count is 5 and the byte total is the sum of the sizes.
    let entries = vec![
        file("C:\\t\\a", 1),
        file("C:\\t\\b", 2),
        file("C:\\t\\c", 3),
        file("C:\\t\\d", 4),
        file("C:\\t\\e", 5),
    ];
    let c = component_from_entries(
        "C:\\t".to_string(),
        FilterPolicy::Unrestricted,
        1,
        usize::MAX,
        true,
        &entries,
    )
    .unwrap();
    assert_eq!(c.count, 5);
    assert_eq!(c.total_bytes, 15);
    assert_eq!(c.min_depth, 1, "the root itself stays out of the deletion pass");
}

#[test]
fn directories_are_never_counted() {
    let entries = vec![file("C:\\t\\a", 10), dir("C:\\t\\sub"), file("C:\\t\\b", 20)];
    let c = component_from_entries(
        "C:\\t".to_string(),
        FilterPolicy::Unrestricted,
        1,
        usize::MAX,
        true,
        &entries,
    )
    .unwrap();
    assert_eq!(c.count, 2);
    assert_eq!(c.total_bytes, 30);
}

#[test]
fn nonexistent_path_never_becomes_a_component() {
    let entries = vec![file("C:\\t\\a", 1), file("C:\\t\\b", 2)];
    let r = component_from_entries(
        "C:\\t".to_string(),
        FilterPolicy::Unrestricted,
        1,
        usize::MAX,
        false,
        &entries,
    );
    assert!(r.is_none());
}

#[test]
fn single_file_location_is_dropped() {
    let entries = vec![file("C:\\t\\only", 9)];
    let r = component_from_entries(
        "C:\\t".to_string(),
        FilterPolicy::Unrestricted,
        1,
        usize::MAX,
        true,
        &entries,
    );
    assert!(r.is_none());
}

#[test]
fn empty_location_is_dropped() {
    let entries: Vec<FsEntry> = vec![];
    let r = component_from_entries(
        "C:\\t".to_string(),
        FilterPolicy::Unrestricted,
        1,
        usize::MAX,
        true,
        &entries,
    );
    assert!(r.is_none());
}

#[test]
fn two_files_is_just_enough() {
    let entries = vec![file("C:\\t\\a", 1), file("C:\\t\\b", 2)];
    let c = component_from_entries(
        "C:\\t".to_string(),
        FilterPolicy::Unrestricted,
        1,
        usize::MAX,
        true,
        &entries,
    )
    .unwrap();
    assert!(is_retained(&c));
    assert_eq!(c.count, 2);
}

#[test]
fn byte_totals_saturate_instead_of_wrapping() {
    let entries = vec![file("C:\\t\\a", u64::MAX), file("C:\\t\\b", 2)];
    let c = component_from_entries(
        "C:\\t".to_string(),
        FilterPolicy::Unrestricted,
        1,
        usize::MAX,
        true,
        &entries,
    )
    .unwrap();
    assert_eq!(c.total_bytes, u64::MAX);
}

#[test]
fn extension_filter_counts_only_matching_files() {
    // 3 files with the monitored extension, 2 with another: indexing
    // yields exactly 3, and the other 2 are invisible to every visitor.
    let f = FilterPolicy::ByExtension("tmp".to_string());
    let entries = vec![
        file("C:\\t\\a.tmp", 1),
        file("C:\\t\\b.log", 100),
        file("C:\\t\\c.tmp", 2),
        file("C:\\t\\d.dat", 200),
        file("C:\\t\\e.tmp", 3),
    ];
    let c = component_from_entries("C:\\t".to_string(), f.clone(), 1, 1, true, &entries).unwrap();
    assert_eq!(c.count, 3);
    assert_eq!(c.total_bytes, 6);
    let untouched = &entries[1];
    assert!(!entry_matches(&f, untouched));
    assert_eq!(
        removal_fate(&c, untouched, false, false),
        EntryFate::Skipped,
        "a non-matching file is never touched by any visitor"
    );
}

#[test]
fn extension_filter_skips_directories() {
    let f = FilterPolicy::ByExtension("tmp".to_string());
    let entries = vec![
        file("C:\\t\\a.tmp", 1),
        dir("C:\\t\\sub.tmp"),
        file("C:\\t\\b.tmp", 2),
    ];
    let c = component_from_entries("C:\\t".to_string(), f, 1, 1, true, &entries).unwrap();
    assert_eq!(c.count, 2, "a directory is traversed but never counted");
    let d = &entries[1];
    assert_eq!(removal_fate(&c, d, false, false), EntryFate::Skipped);
}

#[test]
fn widen_root_includes_depth_zero() {
    let entries = vec![file("C:\\Windows.old\\a", 1), file("C:\\Windows.old\\b", 2)];
    let mut c = component_from_entries(
        "C:\\Windows.old".to_string(),
        FilterPolicy::Unrestricted,
        1,
        usize::MAX,
        true,
        &entries,
    )
    .unwrap();
    assert_eq!(c.min_depth, 1);
    widen_root(&mut c);
    assert_eq!(c.min_depth, 0);
    assert_eq!(c.count, 2);
}

#[test]
fn unlocked_targets_are_removed() {
    let entries = vec![
        file("C:\\t\\a", 1),
        file("C:\\t\\b", 2),
        file("C:\\t\\c", 3),
        file("C:\\t\\d", 4),
        file("C:\\t\\e", 5),
    ];
    let mut c = component_from_entries(
        "C:\\t".to_string(),
        FilterPolicy::Unrestricted,
        1,
        usize::MAX,
        true,
        &entries,
    )
    .unwrap();
    let locked = vec![false; 5];
    let registered = vec![false; 5];
    let fates = removal_pass(&mut c, &entries, &locked, &registered);
    assert_eq!(fates, vec![EntryFate::Removed; 5]);
    assert!(!c.needs_reboot);
}

#[test]
fn locked_file_is_deferred_and_sets_needs_reboot() {
    // One of five files is held by another process: after the passes it
    // is registered for removal at the next restart and the component
    // reports that a reboot is needed.
    let entries = vec![
        file("C:\\t\\a", 1),
        file("C:\\t\\b", 2),
        file("C:\\t\\c", 3),
        file("C:\\t\\d", 4),
        file("C:\\t\\e", 5),
    ];
    let mut c = component_from_entries(
        "C:\\t".to_string(),
        FilterPolicy::Unrestricted,
        1,
        usize::MAX,
        true,
        &entries,
    )
    .unwrap();
    let locked = vec![false, false, true, false, false];
    let registered = vec![false, false, true, false, false];
    let fates = removal_pass(&mut c, &entries, &locked, &registered);
    assert_eq!(fates[2], EntryFate::Deferred);
    assert_eq!(fates[0], EntryFate::Removed);
    assert!(c.needs_reboot);
}

#[test]
fn failed_registration_leaves_the_entry_and_no_flag() {
    let entries = vec![file("C:\\t\\a", 1), file("C:\\t\\b", 2)];
    let mut c = component_from_entries(
        "C:\\t".to_string(),
        FilterPolicy::Unrestricted,
        1,
        usize::MAX,
        true,
        &entries,
    )
    .unwrap();
    let locked = vec![true, false];
    let registered = vec![false, false];
    let fates = removal_pass(&mut c, &entries, &locked, &registered);
    assert_eq!(fates[0], EntryFate::Left);
    assert_eq!(fates[1], EntryFate::Removed);
    assert!(!c.needs_reboot);
}

#[test]
fn second_indexing_after_removal_never_grows() {
    // Idempotence of the deletion pass: reindexing what the passes left
    // behind reports no more files and no more bytes than remain.
    let entries = vec![
        file("C:\\t\\a", 10),
        file("C:\\t\\b", 20),
        file("C:\\t\\c", 30),
    ];
    let mut c = component_from_entries(
        "C:\\t".to_string(),
        FilterPolicy::Unrestricted,
        1,
        usize::MAX,
        true,
        &entries,
    )
    .unwrap();
    let first_count = c.count;
    let first_bytes = c.total_bytes;
    let locked = vec![false, true, false];
    let registered = vec![false, false, false];
    let fates = removal_pass(&mut c, &entries, &locked, &registered);
    let remaining: Vec<FsEntry> = entries
        .iter()
        .zip(fates.iter())
        .filter(|(_, f)| **f != EntryFate::Removed)
        .map(|(e, _)| FsEntry {
            path: e.path.clone(),
            depth: e.depth,
            is_file: e.is_file,
            is_dir: e.is_dir,
            size: e.size,
        })
        .collect();
    assert_eq!(remaining.len(), 1);
    let second = component_from_entries(
        "C:\\t".to_string(),
        FilterPolicy::Unrestricted,
        1,
        usize::MAX,
        true,
        &remaining,
    );
    assert!(second.is_none(), "one leftover file is below the retention threshold");
    let mut probe = TempComponent::new_clear("C:\\t".to_string());
    probe.index_entries(&remaining);
    assert!(probe.count <= first_count);
    assert!(probe.total_bytes <= first_bytes);
    assert_eq!(probe.count, 1);
    assert_eq!(probe.total_bytes, 20);
}

#[test]
fn record_deferred_is_sticky() {
    let mut c = TempComponent::new_clear("C:\\t".to_string());
    record_deferred(&mut c, false);
    assert!(!c.needs_reboot);
    record_deferred(&mut c, true);
    assert!(c.needs_reboot);
    record_deferred(&mut c, false);
    assert!(c.needs_reboot);
}

#[test]
fn removal_targets_are_exactly_the_admitted_entries() {
    let f = FilterPolicy::ByExtension("tmp".to_string());
    let c = TempComponent {
        path: "C:\\t".to_string(),
        filter: f,
        min_depth: 1,
        max_depth: 1,
        count: 2,
        total_bytes: 3,
        needs_reboot: false,
    };
    let entries = vec![
        file("C:\\t\\a.tmp", 1),
        file("C:\\t\\b.log", 5),
        dir("C:\\t\\sub.tmp"),
        file("C:\\t\\c.tmp", 2),
    ];
    let r = filter_removal_targets(&c, &entries);
    let paths: Vec<&str> = r.iter().map(|e| e.path.as_str()).collect();
    assert_eq!(paths, vec!["C:\\t\\a.tmp", "C:\\t\\c.tmp"]);
}

#[test]
fn unrestricted_targets_keep_files_and_directories() {
    let c = TempComponent {
        path: "C:\\t".to_string(),
        filter: FilterPolicy::Unrestricted,
        min_depth: 1,
        max_depth: usize::MAX,
        count: 2,
        total_bytes: 3,
        needs_reboot: false,
    };
    let neither = FsEntry {
        path: "C:\\t\\gone".to_string(),
        depth: 1,
        is_file: false,
        is_dir: false,
        size: 0,
    };
    let entries = vec![file("C:\\t\\a", 1), dir("C:\\t\\d"), neither];
    let r = filter_removal_targets(&c, &entries);
    let paths: Vec<&str> = r.iter().map(|e| e.path.as_str()).collect();
    assert_eq!(paths, vec!["C:\\t\\a", "C:\\t\\d"]);
}

#[test]
fn profile_discovery_keeps_directories_only() {
    let entries = vec![dir("C:\\u\\p1"), file("C:\\u\\f", 1), dir("C:\\u\\p2")];
    let r = profile_dirs(&entries);
    assert_eq!(r, vec!["C:\\u\\p1".to_string(), "C:\\u\\p2".to_string()]);
}
