//! The component catalog builder: a fixed declarative table of cleanup
//! locations, expanded against the anchor map and the discovered user
//! profiles. Every expansion measures the location at once and keeps it
//! only when more than one file was found.

use vstd::prelude::*;

use crate::anchors::Anchors;
use crate::anchors::check_path;
use crate::component::FilterPolicy;
use crate::component::FsEntry;
use crate::component::TempComponent;
use crate::component::component_from_entries;
use crate::component::spec_retained;
use crate::component::widen_root;
use crate::disk::dir_exists;
use crate::disk::walk_tree;
use crate::paths::join_path;
use crate::paths::path_extends;
use crate::paths::path_shape_absolute;
use crate::paths::spec_join;
use crate::paths::temp_file_name;

verus! {

/// The shape every unrestricted catalog expansion produces: a retained
/// component over the whole subtree, the root itself excluded.
pub open spec fn clear_shape(c: TempComponent) -> bool {
    &&& spec_retained(c)
    &&& c.filter is Unrestricted
    &&& c.min_depth == 1
    &&& c.max_depth == usize::MAX
    &&& !c.needs_reboot
}

/// The shape of an extension-filtered expansion: retained, direct
/// children only.
pub open spec fn ext_shape(c: TempComponent) -> bool {
    &&& spec_retained(c)
    &&& c.filter matches FilterPolicy::ByExtension(_)
    &&& c.min_depth == 1
    &&& c.max_depth == 1
    &&& !c.needs_reboot
}

/// The shape of a legacy-backup expansion after widening: the root itself
/// is part of the deletion pass.
pub open spec fn legacy_shape(c: TempComponent) -> bool {
    &&& spec_retained(c)
    &&& c.filter is Unrestricted
    &&& c.min_depth == 0
    &&& c.max_depth == usize::MAX
    &&& !c.needs_reboot
}

/// The variable-derived temp expansion: it happens only when both
/// variables are present, the temp value is non-empty and differs from
/// the user's default per-profile temp directory, and the appended
/// component is rooted exactly at that value, which passed the stricter
/// safety check.
pub open spec fn temp_var_shape(
    temp_var: Option<String>,
    userprofile_var: Option<String>,
    c: TempComponent,
) -> bool {
    &&& clear_shape(c)
    &&& path_shape_absolute(c.path@)
    &&& temp_file_name(c.path@)
    &&& (temp_var matches Some(t) && userprofile_var matches Some(u) && c.path@ == t@ && t@ != u@
        + "\\AppData\\Local\\Temp"@ && t@.len() > 0)
}

/// `post` extends `pre` without disturbing it, and everything appended
/// satisfies `shape`.
pub open spec fn extends_with(
    pre: Seq<TempComponent>,
    post: Seq<TempComponent>,
    shape: spec_fn(TempComponent) -> bool,
) -> bool {
    &&& post.len() >= pre.len()
    &&& (forall|i: int| 0 <= i < pre.len() ==> post[i] == pre[i])
    &&& (forall|i: int| pre.len() <= i < post.len() ==> shape(#[trigger] post[i]))
}

pub proof fn lemma_extends_trans(
    a: Seq<TempComponent>,
    b: Seq<TempComponent>,
    c: Seq<TempComponent>,
    shape: spec_fn(TempComponent) -> bool,
)
    requires
        extends_with(a, b, shape),
        extends_with(b, c, shape),
    ensures
        extends_with(a, c, shape),
{
}

/// A weaker shape may replace a stronger one.
pub proof fn lemma_extends_weaken(
    a: Seq<TempComponent>,
    b: Seq<TempComponent>,
    strong: spec_fn(TempComponent) -> bool,
    weak: spec_fn(TempComponent) -> bool,
)
    requires
        extends_with(a, b, strong),
        forall|c: TempComponent| #[trigger] strong(c) ==> weak(c),
    ensures
        extends_with(a, b, weak),
{
}

/// Expand one unrestricted location: keep it only when the path passes
/// the safety check and indexing counts more than one file. Anything
/// appended is rooted exactly at the given path.
pub fn push_clear_component(components: &mut Vec<TempComponent>, path: String)
    ensures
        extends_with(
            old(components)@,
            final(components)@,
            |c: TempComponent| clear_shape(c) && c.path@ == path@,
        ),
{
    if check_path(&path, false) {
        let entries = walk_tree(&path, 1, usize::MAX);
        if let Some(c) = component_from_entries(
            path,
            FilterPolicy::Unrestricted,
            1,
            usize::MAX,
            true,
            &entries,
        ) {
            components.push(c);
        }
    }
}

/// Expand one extension-filtered location rooted at an anchor itself.
/// Anything appended is rooted exactly at the given path and filters by
/// exactly the given extension.
pub fn push_extension_component(components: &mut Vec<TempComponent>, path: String, ext: String)
    ensures
        extends_with(
            old(components)@,
            final(components)@,
            |c: TempComponent| ext_shape(c) && c.path@ == path@ && c.filter
                == FilterPolicy::ByExtension(ext),
        ),
{
    if dir_exists(&path) {
        let entries = walk_tree(&path, 1, 1);
        if let Some(c) = component_from_entries(
            path,
            FilterPolicy::ByExtension(ext),
            1,
            1,
            true,
            &entries,
        ) {
            components.push(c);
        }
    }
}

/// Expand one legacy OS-upgrade backup location. A location that passes
/// indexing with more than one file has its bounds widened so the backup
/// root itself falls to the deletion pass; one that does not is never
/// added, so its root is never touched. Anything appended is rooted
/// exactly at the given path.
pub fn push_legacy_component(components: &mut Vec<TempComponent>, path: String)
    ensures
        extends_with(
            old(components)@,
            final(components)@,
            |c: TempComponent| legacy_shape(c) && c.path@ == path@,
        ),
{
    if check_path(&path, false) {
        let entries = walk_tree(&path, 1, usize::MAX);
        if let Some(mut c) = component_from_entries(
            path,
            FilterPolicy::Unrestricted,
            1,
            usize::MAX,
            true,
            &entries,
        ) {
            widen_root(&mut c);
            components.push(c);
        }
    }
}

/// Which anchor a fixed catalog row resolves against, or the per-user
/// marker.
#[derive(Clone, Debug)]
pub enum RowAnchor {
    SystemDrive,
    SystemRoot,
    Sys32,
    AllUserProfile,
    Users,
}

/// One row of the main catalog table: an anchor and a relative path.
#[derive(Clone, Debug)]
pub struct CatalogRow {
    pub anchor: RowAnchor,
    pub rel: String,
}

fn row(anchor: RowAnchor, rel: &str) -> (r: CatalogRow)
    ensures
        r.anchor == anchor,
        r.rel@ == rel@,
{
    CatalogRow { anchor, rel: String::from_str(rel) }
}

/// What one catalog row says, as a pair of anchor and relative path.
pub open spec fn spec_row(c: CatalogRow) -> (RowAnchor, Seq<char>) {
    (c.anchor, c.rel@)
}

/// The fixed main catalog table, in report order.
pub open spec fn spec_walk_all_rows() -> Seq<(RowAnchor, Seq<char>)> {
    seq![
        (RowAnchor::SystemRoot, "Temp"@),
        (RowAnchor::SystemRoot, "Prefetch"@),
        (RowAnchor::SystemRoot, "SoftwareDistribution\\Download"@),
        (RowAnchor::SystemRoot, "SoftwareDistribution\\DataStore\\Logs"@),
        (RowAnchor::SystemRoot, "SoftwareDistribution\\DataStore.bak\\Logs"@),
        (RowAnchor::SystemRoot, "Logs\\waasmedic"@),
        (RowAnchor::SystemRoot, "Logs\\WindowsUpdate"@),
        (RowAnchor::AllUserProfile, "Temp"@),
        (RowAnchor::Users, "AppData\\Local\\Temp"@),
        (RowAnchor::Users, "AppData\\Local\\Microsoft\\Windows\\Temporary Internet Files"@),
        (RowAnchor::Users, "AppData\\Roaming\\Macromedia\\Flash Player\\#SharedObjects"@),
        (RowAnchor::Users, "AppData\\Local\\Microsoft\\Windows\\WebCache"@),
        (RowAnchor::Users, "AppData\\Local\\Microsoft\\Windows\\INetCache\\IE"@),
        (RowAnchor::SystemRoot, "ie7updates"@),
        (RowAnchor::SystemRoot, "ie8updates"@),
        (RowAnchor::Users, "AppData\\Local\\Google\\Chrome\\User Data\\Default\\Cache"@),
        (RowAnchor::Users, "AppData\\Local\\Google\\Chrome\\User Data\\Default\\File System"@),
        (RowAnchor::Users, "AppData\\Local\\Google\\Chrome\\UserData\\Default\\Local Storage"@),
        (RowAnchor::Users, "AppData\\Local\\BraveSoftware\\Brave-Browser\\User Data\\Default\\Cache"@),
        (RowAnchor::Users, "AppData\\LocalLow\\Sun\\Java\\Deployment\\cache"@),
        (RowAnchor::Users, "AppData\\Local\\Opera Software\\Opera Stable\\Cache"@),
        (
            RowAnchor::Users,
            "AppData\\Local\\Packages\\Microsoft.MicrosoftEdge_8wekyb3d8bbwe\\AC\\MicrosoftEdge\\Cache"@,
        ),
        (RowAnchor::Users, "AppData\\Local\\Yandex\\YandexBrowser\\Default\\Cache"@),
        (RowAnchor::Users, "AppData\\Local\\Yandex\\YandexBrowser\\User DataDefault\\Cache"@),
        (RowAnchor::Users, "AppData\\Local\\Chromium\\User Data\\Default\\Cache"@),
        (RowAnchor::Users, "AppData\\Local\\Chromium\\User Data\\Default\\ApplicationCache"@),
        (RowAnchor::Users, "AppData\\Local\\Comodo\\Dragon\\User Data\\Default\\Cache"@),
        (RowAnchor::Users, "AppData\\Local\\Comodo\\Dragon\\User DataDefault\\Cache"@),
        (RowAnchor::Users, "AppData\\Local\\Baidu\\User Data\\Cache"@),
        (RowAnchor::Users, "AppData\\Local\\Vivaldi\\User Data\\Default\\Application Cache"@),
        (RowAnchor::Users, "AppData\\Local\\Vivaldi\\User Data\\Default\\Cache"@),
        (RowAnchor::Users, "AppData\\Local\\Vivaldi\\User Data\\Default\\GPUCache"@),
        (RowAnchor::Users, "AppData\\Local\\Vivaldi\\User Data\\Default\\Media Cache"@),
        (RowAnchor::SystemDrive, "\\Config.Msi"@),
    ]
}

/// The main catalog table: system update caches, prefetch, browser
/// caches, plugin caches and update logs, in report order.
#[verifier::rlimit(60)]
pub fn rows_walk_all() -> (t: Vec<CatalogRow>)
    ensures
        t@.map_values(|c: CatalogRow| spec_row(c)) == spec_walk_all_rows(),
{
    let mut t: Vec<CatalogRow> = Vec::new();
    t.push(row(RowAnchor::SystemRoot, "Temp"));
    t.push(row(RowAnchor::SystemRoot, "Prefetch"));
    t.push(row(RowAnchor::SystemRoot, "SoftwareDistribution\\Download"));
    t.push(row(RowAnchor::SystemRoot, "SoftwareDistribution\\DataStore\\Logs"));
    t.push(row(RowAnchor::SystemRoot, "SoftwareDistribution\\DataStore.bak\\Logs"));
    t.push(row(RowAnchor::SystemRoot, "Logs\\waasmedic"));
    t.push(row(RowAnchor::SystemRoot, "Logs\\WindowsUpdate"));
    t.push(row(RowAnchor::AllUserProfile, "Temp"));
    t.push(row(RowAnchor::Users, "AppData\\Local\\Temp"));
    t.push(row(RowAnchor::Users, "AppData\\Local\\Microsoft\\Windows\\Temporary Internet Files"));
    t.push(row(RowAnchor::Users, "AppData\\Roaming\\Macromedia\\Flash Player\\#SharedObjects"));
    t.push(row(RowAnchor::Users, "AppData\\Local\\Microsoft\\Windows\\WebCache"));
    t.push(row(RowAnchor::Users, "AppData\\Local\\Microsoft\\Windows\\INetCache\\IE"));
    t.push(row(RowAnchor::SystemRoot, "ie7updates"));
    t.push(row(RowAnchor::SystemRoot, "ie8updates"));
    t.push(row(RowAnchor::Users, "AppData\\Local\\Google\\Chrome\\User Data\\Default\\Cache"));
    t.push(row(RowAnchor::Users, "AppData\\Local\\Google\\Chrome\\User Data\\Default\\File System"));
    t.push(row(RowAnchor::Users, "AppData\\Local\\Google\\Chrome\\UserData\\Default\\Local Storage"));
    t.push(
        row(RowAnchor::Users, "AppData\\Local\\BraveSoftware\\Brave-Browser\\User Data\\Default\\Cache"),
    );
    t.push(row(RowAnchor::Users, "AppData\\LocalLow\\Sun\\Java\\Deployment\\cache"));
    t.push(row(RowAnchor::Users, "AppData\\Local\\Opera Software\\Opera Stable\\Cache"));
    t.push(
        row(
            RowAnchor::Users,
            "AppData\\Local\\Packages\\Microsoft.MicrosoftEdge_8wekyb3d8bbwe\\AC\\MicrosoftEdge\\Cache",
        ),
    );
    t.push(row(RowAnchor::Users, "AppData\\Local\\Yandex\\YandexBrowser\\Default\\Cache"));
    t.push(row(RowAnchor::Users, "AppData\\Local\\Yandex\\YandexBrowser\\User DataDefault\\Cache"));
    t.push(row(RowAnchor::Users, "AppData\\Local\\Chromium\\User Data\\Default\\Cache"));
    t.push(row(RowAnchor::Users, "AppData\\Local\\Chromium\\User Data\\Default\\ApplicationCache"));
    t.push(row(RowAnchor::Users, "AppData\\Local\\Comodo\\Dragon\\User Data\\Default\\Cache"));
    t.push(row(RowAnchor::Users, "AppData\\Local\\Comodo\\Dragon\\User DataDefault\\Cache"));
    t.push(row(RowAnchor::Users, "AppData\\Local\\Baidu\\User Data\\Cache"));
    t.push(row(RowAnchor::Users, "AppData\\Local\\Vivaldi\\User Data\\Default\\Application Cache"));
    t.push(row(RowAnchor::Users, "AppData\\Local\\Vivaldi\\User Data\\Default\\Cache"));
    t.push(row(RowAnchor::Users, "AppData\\Local\\Vivaldi\\User Data\\Default\\GPUCache"));
    t.push(row(RowAnchor::Users, "AppData\\Local\\Vivaldi\\User Data\\Default\\Media Cache"));
    t.push(row(RowAnchor::SystemDrive, "\\Config.Msi"));
    proof {
        assert(t@.map_values(|c: CatalogRow| spec_row(c)) =~= spec_walk_all_rows());
    }
    t
}

/// Where a fixed catalog row is anchored.
pub open spec fn anchor_of(a: Anchors, k: RowAnchor) -> Seq<char> {
    match k {
        RowAnchor::SystemDrive => a.system_drive@,
        RowAnchor::SystemRoot => a.system_root@,
        RowAnchor::Sys32 => a.sys32@,
        RowAnchor::AllUserProfile => a.all_user_profile@,
        RowAnchor::Users => a.user_profile@,
    }
}

/// `p` is the resolution of some fixed-anchor row of the main table.
pub open spec fn fixed_row_candidate(a: Anchors, p: Seq<char>) -> bool {
    exists|r: int|
        0 <= r < spec_walk_all_rows().len() && !((#[trigger] spec_walk_all_rows()[r]).0 is Users)
            && p == spec_join(anchor_of(a, spec_walk_all_rows()[r].0), spec_walk_all_rows()[r].1)
}

/// `p` is the resolution of some per-user row of the main table against
/// some discovered user directory.
pub open spec fn user_row_candidate(users: Seq<String>, p: Seq<char>) -> bool {
    exists|r: int, u: int|
        0 <= r < spec_walk_all_rows().len() && 0 <= u < users.len() && (
        #[trigger] spec_walk_all_rows()[r]).0 is Users && p == spec_join(
            (#[trigger] users[u])@,
            spec_walk_all_rows()[r].1,
        )
}

/// Every root the main-table expansion may append: a table row resolved
/// against its anchor, a per-user row resolved against a discovered user
/// directory, or the raw temp variable's value.
pub open spec fn walk_all_candidate(
    a: Anchors,
    users: Seq<String>,
    temp_var: Option<String>,
    p: Seq<char>,
) -> bool {
    ||| fixed_row_candidate(a, p)
    ||| user_row_candidate(users, p)
    ||| (temp_var matches Some(t) && p == t@)
}

/// Expand the main catalog table: each fixed-anchor row once, each
/// per-user row once for every discovered profile directory; then the
/// variable-derived temp path under its stricter guard. Every appended
/// component is rooted at a resolution of a table row (or at the guarded
/// temp value) and excludes its root from deletion.
pub fn get_walk_all(
    components: &mut Vec<TempComponent>,
    a: &Anchors,
    users_dirs: &Vec<String>,
    temp_var: &Option<String>,
    userprofile_var: &Option<String>,
)
    ensures
        extends_with(
            old(components)@,
            final(components)@,
            |c: TempComponent| clear_shape(c) && walk_all_candidate(
                *a,
                users_dirs@,
                *temp_var,
                c.path@,
            ),
        ),
{
    let ghost target = |c: TempComponent| clear_shape(c) && walk_all_candidate(
        *a,
        users_dirs@,
        *temp_var,
        c.path@,
    );
    let rows = rows_walk_all();
    let nrows = rows.len();
    for r in 0..nrows
        invariant
            nrows == rows@.len(),
            rows@.map_values(|c: CatalogRow| spec_row(c)) == spec_walk_all_rows(),
            target == (|c: TempComponent| clear_shape(c) && walk_all_candidate(
                *a,
                users_dirs@,
                *temp_var,
                c.path@,
            )),
            extends_with(old(components)@, components@, target),
    {
        let ghost before = components@;
        proof {
            assert(spec_row(rows@[r as int]) == spec_walk_all_rows()[r as int]);
        }
        let rel = rows[r].rel.as_str();
        match rows[r].anchor {
            RowAnchor::Users => {
                let nu = users_dirs.len();
                for u in 0..nu
                    invariant
                        nu == users_dirs@.len(),
                        nrows == rows@.len(),
                        r < nrows,
                        rows@.map_values(|c: CatalogRow| spec_row(c)) == spec_walk_all_rows(),
                        spec_walk_all_rows()[r as int].0 is Users,
                        target == (|c: TempComponent| clear_shape(c) && walk_all_candidate(
                            *a,
                            users_dirs@,
                            *temp_var,
                            c.path@,
                        )),
                        extends_with(before, components@, target),
                    {
                    let ghost mid = components@;
                    let p = join_path(users_dirs[u].as_str(), rows[r].rel.as_str());
                    let ghost pv = p@;
                    push_clear_component(components, p);
                    proof {
                        assert(spec_row(rows@[r as int]) == spec_walk_all_rows()[r as int]);
                        assert(pv == spec_join(
                            (users_dirs@[u as int])@,
                            spec_walk_all_rows()[r as int].1,
                        ));
                        assert(user_row_candidate(users_dirs@, pv));
                        lemma_extends_weaken(
                            mid,
                            components@,
                            |c: TempComponent| clear_shape(c) && c.path@ == pv,
                            target,
                        );
                        lemma_extends_trans(before, mid, components@, target);
                    }
                }
            },
            RowAnchor::SystemDrive => {
                let p = join_path(a.system_drive.as_str(), rel);
                let ghost pv = p@;
                push_clear_component(components, p);
                proof {
                    assert(pv == spec_join(
                        anchor_of(*a, spec_walk_all_rows()[r as int].0),
                        spec_walk_all_rows()[r as int].1,
                    ));
                    assert(fixed_row_candidate(*a, pv));
                    lemma_extends_weaken(
                        before,
                        components@,
                        |c: TempComponent| clear_shape(c) && c.path@ == pv,
                        target,
                    );
                }
            },
            RowAnchor::SystemRoot => {
                let p = join_path(a.system_root.as_str(), rel);
                let ghost pv = p@;
                push_clear_component(components, p);
                proof {
                    assert(pv == spec_join(
                        anchor_of(*a, spec_walk_all_rows()[r as int].0),
                        spec_walk_all_rows()[r as int].1,
                    ));
                    assert(fixed_row_candidate(*a, pv));
                    lemma_extends_weaken(
                        before,
                        components@,
                        |c: TempComponent| clear_shape(c) && c.path@ == pv,
                        target,
                    );
                }
            },
            RowAnchor::Sys32 => {
                let p = join_path(a.sys32.as_str(), rel);
                let ghost pv = p@;
                push_clear_component(components, p);
                proof {
                    assert(pv == spec_join(
                        anchor_of(*a, spec_walk_all_rows()[r as int].0),
                        spec_walk_all_rows()[r as int].1,
                    ));
                    assert(fixed_row_candidate(*a, pv));
                    lemma_extends_weaken(
                        before,
                        components@,
                        |c: TempComponent| clear_shape(c) && c.path@ == pv,
                        target,
                    );
                }
            },
            RowAnchor::AllUserProfile => {
                let p = join_path(a.all_user_profile.as_str(), rel);
                let ghost pv = p@;
                push_clear_component(components, p);
                proof {
                    assert(pv == spec_join(
                        anchor_of(*a, spec_walk_all_rows()[r as int].0),
                        spec_walk_all_rows()[r as int].1,
                    ));
                    assert(fixed_row_candidate(*a, pv));
                    lemma_extends_weaken(
                        before,
                        components@,
                        |c: TempComponent| clear_shape(c) && c.path@ == pv,
                        target,
                    );
                }
            },
        }
        proof {
            lemma_extends_trans(old(components)@, before, components@, target);
        }
    }
    let ghost before_temp = components@;
    temp_var_component(components, temp_var, userprofile_var);
    proof {
        lemma_extends_weaken(
            before_temp,
            components@,
            |c: TempComponent| temp_var_shape(*temp_var, *userprofile_var, c),
            target,
        );
        lemma_extends_trans(old(components)@, before_temp, components@, target);
    }
}

/// The special case for the platform temp variable: the raw value becomes
/// a component only when it is present, differs from the user's default
/// per-profile temp directory, is non-empty, and passes the stricter
/// safety check — its final segment must spell a temp directory, so a
/// wrong value can never name an unintended tree for deletion. Anything
/// appended is rooted exactly at the variable's value.
pub fn temp_var_component(
    components: &mut Vec<TempComponent>,
    temp_var: &Option<String>,
    userprofile_var: &Option<String>,
)
    ensures
        extends_with(
            old(components)@,
            final(components)@,
            |c: TempComponent| temp_var_shape(*temp_var, *userprofile_var, c),
        ),
{
    let up = match userprofile_var {
        Some(p) => p,
        None => {
            return ;
        },
    };
    let t = match temp_var {
        Some(t) => t,
        None => {
            return ;
        },
    };
    let user_temp = up.clone().concat("\\AppData\\Local\\Temp");
    if *t == user_temp {
        return ;
    }
    if t.as_str().unicode_len() == 0 {
        return ;
    }
    if check_path(t, true) {
        let ghost before = components@;
        let ghost pv = t@;
        push_clear_component(components, t.clone());
        proof {
            lemma_extends_weaken(
                before,
                components@,
                |c: TempComponent| clear_shape(c) && c.path@ == pv,
                |c: TempComponent| temp_var_shape(*temp_var, *userprofile_var, c),
            );
        }
    }
}

/// The anchors whose own directories are scanned for loose temp files.
pub open spec fn spec_glob_file_rows() -> Seq<RowAnchor> {
    seq![RowAnchor::SystemDrive, RowAnchor::SystemRoot, RowAnchor::Sys32]
}

/// The anchors whose own directories are scanned for loose temp files.
pub fn rows_glob_file() -> (t: Vec<RowAnchor>)
    ensures
        t@ == spec_glob_file_rows(),
{
    let mut t: Vec<RowAnchor> = Vec::new();
    t.push(RowAnchor::SystemDrive);
    t.push(RowAnchor::SystemRoot);
    t.push(RowAnchor::Sys32);
    proof {
        assert(t@ =~= spec_glob_file_rows());
    }
    t
}

/// The shape of everything the loose-file expansion appends: an
/// extension-filtered component over the `tmp` extension, rooted at one
/// of the three scanned anchors.
pub open spec fn glob_file_shape(a: Anchors, c: TempComponent) -> bool {
    &&& ext_shape(c)
    &&& c.filter matches FilterPolicy::ByExtension(x) && x@ == "tmp"@
    &&& (c.path@ == a.system_drive@ || c.path@ == a.system_root@ || c.path@ == a.sys32@)
}

/// Expand the loose-file table: one extension-filtered component per
/// anchor directory, matching files with the `tmp` extension among its
/// direct children.
pub fn get_walk_glob_file(components: &mut Vec<TempComponent>, a: &Anchors)
    ensures
        extends_with(
            old(components)@,
            final(components)@,
            |c: TempComponent| glob_file_shape(*a, c),
        ),
{
    let anchors = rows_glob_file();
    let n = anchors.len();
    for i in 0..n
        invariant
            n == anchors@.len(),
            extends_with(old(components)@, components@, |c: TempComponent| glob_file_shape(*a, c)),
    {
        let ghost before = components@;
        let path = match anchors[i] {
            RowAnchor::SystemDrive => a.system_drive.clone(),
            RowAnchor::SystemRoot => a.system_root.clone(),
            RowAnchor::Sys32 => a.sys32.clone(),
            _ => a.system_root.clone(),
        };
        let ghost pv = path@;
        let ext = String::from_str("tmp");
        let ghost ev = ext@;
        push_extension_component(components, path, ext);
        proof {
            assert(pv == a.system_drive@ || pv == a.system_root@ || pv == a.sys32@);
            lemma_extends_weaken(
                before,
                components@,
                |c: TempComponent| ext_shape(c) && c.path@ == pv && (c.filter
                    matches FilterPolicy::ByExtension(x) && x@ == ev),
                |c: TempComponent| glob_file_shape(*a, c),
            );
            lemma_extends_trans(
                old(components)@,
                before,
                components@,
                |c: TempComponent| glob_file_shape(*a, c),
            );
        }
    }
}

/// The fixed per-user browser-family profile roots.
pub open spec fn spec_profile_root_rows() -> Seq<Seq<char>> {
    seq![
        "AppData\\Local\\Mozilla\\Firefox\\Profiles"@,
        "AppData\\Local\\Mozilla\\Waterfox\\Profiles"@,
        "AppData\\Local\\Mozilla\\SeaMonkey\\Profiles"@,
        "AppData\\Local\\Mozilla\\Pale Moon\\Profiles"@,
        "AppData\\Local\\Comodo\\IceDragon\\Profiles"@,
    ]
}

/// The per-user browser profile roots whose subdirectories hold one cache
/// tree per profile.
pub fn rows_profile_roots() -> (t: Vec<String>)
    ensures
        t.deep_view() == spec_profile_root_rows(),
{
    let mut t: Vec<String> = Vec::new();
    t.push(String::from_str("AppData\\Local\\Mozilla\\Firefox\\Profiles"));
    t.push(String::from_str("AppData\\Local\\Mozilla\\Waterfox\\Profiles"));
    t.push(String::from_str("AppData\\Local\\Mozilla\\SeaMonkey\\Profiles"));
    t.push(String::from_str("AppData\\Local\\Mozilla\\Pale Moon\\Profiles"));
    t.push(String::from_str("AppData\\Local\\Comodo\\IceDragon\\Profiles"));
    proof {
        assert(t.deep_view() =~= spec_profile_root_rows());
    }
    t
}

/// The fixed cache-subfolder table: each row names a profile root by
/// index and the relative cache path to clear under every discovered
/// profile of that root.
pub open spec fn spec_profile_cache_rows() -> Seq<(usize, Seq<char>)> {
    seq![
        (0usize, "cache2"@),
        (0usize, "OfflineCache"@),
        (0usize, "jumpListCache"@),
        (0usize, "startupCache"@),
        (1usize, "cache2"@),
        (1usize, "OfflineCache"@),
        (1usize, "jumpListCache"@),
        (1usize, "startupCache"@),
        (2usize, ""@),
        (3usize, ""@),
        (4usize, "Cache"@),
        (4usize, "OfflineCache"@),
        (4usize, "mozilla-media-cache"@),
        (4usize, "startupCache"@),
        (4usize, "jumpListCache"@),
    ]
}

/// The cache subfolders to clear under each discovered profile, keyed by
/// index into the profile-root table.
pub fn rows_profile_caches() -> (t: Vec<(usize, String)>)
    ensures
        t@.map_values(|r: (usize, String)| (r.0, r.1@)) == spec_profile_cache_rows(),
{
    let mut t: Vec<(usize, String)> = Vec::new();
    t.push((0, String::from_str("cache2")));
    t.push((0, String::from_str("OfflineCache")));
    t.push((0, String::from_str("jumpListCache")));
    t.push((0, String::from_str("startupCache")));
    t.push((1, String::from_str("cache2")));
    t.push((1, String::from_str("OfflineCache")));
    t.push((1, String::from_str("jumpListCache")));
    t.push((1, String::from_str("startupCache")));
    t.push((2, String::from_str("")));
    t.push((3, String::from_str("")));
    t.push((4, String::from_str("Cache")));
    t.push((4, String::from_str("OfflineCache")));
    t.push((4, String::from_str("mozilla-media-cache")));
    t.push((4, String::from_str("startupCache")));
    t.push((4, String::from_str("jumpListCache")));
    proof {
        assert(t@.map_values(|r: (usize, String)| (r.0, r.1@)) =~= spec_profile_cache_rows());
    }
    t
}

/// `p` is the path of some directory entry of `entries`.
pub open spec fn from_dir_entry(entries: Seq<FsEntry>, p: String) -> bool {
    exists|j: int|
        0 <= j < entries.len() && (#[trigger] entries[j]).is_dir && p@ == entries[j].path@
}

/// Exactly the walked entries that count as profile directories — the
/// directories among them — reduced to their paths, in walk order:
/// nothing that is a directory is dropped, and nothing else is kept.
pub fn profile_dirs(entries: &Vec<FsEntry>) -> (r: Vec<String>)
    ensures
        r.deep_view() == entries@.filter(|e: FsEntry| e.is_dir).map_values(
            |e: FsEntry| e.path@,
        ),
        forall|k: int| 0 <= k < r@.len() ==> from_dir_entry(entries@, #[trigger] r@[k]),
{
    let n = entries.len();
    let mut r: Vec<String> = Vec::new();
    proof {
        reveal_with_fuel(Seq::<FsEntry>::filter, 2);
        assert(entries@.subrange(0, 0).filter(|e: FsEntry| e.is_dir) =~= Seq::<FsEntry>::empty());
        assert(r.deep_view() =~= Seq::<FsEntry>::empty().map_values(|e: FsEntry| e.path@));
    }
    for i in 0..n
        invariant
            n == entries@.len(),
            r.deep_view() == entries@.subrange(0, i as int).filter(|e: FsEntry| e.is_dir)
                .map_values(|e: FsEntry| e.path@),
            forall|k: int| 0 <= k < r@.len() ==> from_dir_entry(entries@, #[trigger] r@[k]),
    {
        proof {
            let pred = |e: FsEntry| e.is_dir;
            let f = |e: FsEntry| e.path@;
            reveal_with_fuel(Seq::<FsEntry>::filter, 2);
            assert(entries@.subrange(0, i + 1 as int).drop_last() =~= entries@.subrange(
                0,
                i as int,
            ));
            assert(entries@.subrange(0, i + 1 as int).last() == entries@[i as int]);
            assert(entries@.subrange(0, i + 1 as int).filter(pred) == (if pred(
                entries@[i as int],
            ) {
                entries@.subrange(0, i as int).filter(pred).push(entries@[i as int])
            } else {
                entries@.subrange(0, i as int).filter(pred)
            }));
            assert(entries@.subrange(0, i as int).filter(pred).push(
                entries@[i as int],
            ).map_values(f) =~= entries@.subrange(0, i as int).filter(pred).map_values(f).push(
                entries@[i as int].path@,
            ));
        }
        let ghost dv = r.deep_view();
        let ghost rv = r@;
        if entries[i].is_dir {
            r.push(entries[i].path.clone());
            proof {
                assert(r.deep_view() =~= dv.push(entries@[i as int].path@));
                assert forall|k: int| 0 <= k < r@.len() implies from_dir_entry(
                    entries@,
                    #[trigger] r@[k],
                ) by {
                    if k == r@.len() - 1 {
                        assert(entries@[i as int].is_dir && (r@[k])@ == entries@[i as int].path@);
                    } else {
                        assert(r@[k] == rv[k]);
                    }
                };
            }
        }
    }
    proof {
        assert(entries@.subrange(0, n as int) =~= entries@);
    }
    r
}

/// `p` was discovered as a profile directory: it lies strictly below the
/// given profile root of some discovered user directory.
pub open spec fn discovered_profile(users: Seq<String>, root_rel: Seq<char>, p: Seq<char>) -> bool {
    exists|u: int|
        0 <= u < users.len() && path_extends(spec_join((#[trigger] users[u])@, root_rel), p)
}

/// Every root the per-profile cache expansion may append: a fixed cache
/// row resolved against a discovered profile directory of that row's
/// browser family.
pub open spec fn profile_cache_candidate(users: Seq<String>, path: Seq<char>) -> bool {
    exists|k: int, p: Seq<char>|
        0 <= k < spec_profile_cache_rows().len() && discovered_profile(
            users,
            spec_profile_root_rows()[spec_profile_cache_rows()[k].0 as int],
            p,
        ) && path == #[trigger] spec_join(p, spec_profile_cache_rows()[k].1)
}

/// Expand the per-profile cache table: discover every profile directory
/// under each user's matching profile root, then clear the named cache
/// subfolder of every discovered profile. Every appended component is
/// rooted at a cache row resolved against a discovered profile directory.
pub fn get_glob_folders_clear(components: &mut Vec<TempComponent>, users_dirs: &Vec<String>)
    ensures
        extends_with(
            old(components)@,
            final(components)@,
            |c: TempComponent| clear_shape(c) && profile_cache_candidate(users_dirs@, c.path@),
        ),
{
    let ghost target = |c: TempComponent| clear_shape(c) && profile_cache_candidate(
        users_dirs@,
        c.path@,
    );
    let roots = rows_profile_roots();
    let nroots = roots.len();
    let mut profiles: Vec<Vec<String>> = Vec::new();
    for i in 0..nroots
        invariant
            nroots == roots@.len(),
            roots.deep_view() == spec_profile_root_rows(),
            profiles@.len() == i,
            forall|x: int, j: int|
                0 <= x < profiles@.len() && 0 <= j < (profiles@[x])@.len()
                    ==> discovered_profile(
                    users_dirs@,
                    spec_profile_root_rows()[x],
                    (#[trigger] (profiles@[x])@[j])@,
                ),
    {
        let mut found: Vec<String> = Vec::new();
        let nu = users_dirs.len();
        for u in 0..nu
            invariant
                nu == users_dirs@.len(),
                nroots == roots@.len(),
                roots.deep_view() == spec_profile_root_rows(),
                i < nroots,
                forall|j: int|
                    0 <= j < found@.len() ==> discovered_profile(
                        users_dirs@,
                        spec_profile_root_rows()[i as int],
                        (#[trigger] found@[j])@,
                    ),
        {
            let path = join_path(users_dirs[u].as_str(), roots[i].as_str());
            let ghost pv = path@;
            if dir_exists(&path) {
                let entries = walk_tree(&path, 1, 1);
                let mut discovered = profile_dirs(&entries);
                let ghost dseq = discovered@;
                let ghost fseq = found@;
                proof {
                    assert(roots.deep_view()[i as int] == roots@[i as int]@);
                    assert(pv == spec_join(
                        (users_dirs@[u as int])@,
                        spec_profile_root_rows()[i as int],
                    ));
                    assert forall|k: int| 0 <= k < dseq.len() implies discovered_profile(
                        users_dirs@,
                        spec_profile_root_rows()[i as int],
                        (#[trigger] dseq[k])@,
                    ) by {
                        assert(from_dir_entry(entries@, dseq[k]));
                        let j = choose|j: int|
                            0 <= j < entries@.len() && (#[trigger] entries@[j]).is_dir && dseq[k]@
                                == entries@[j].path@;
                        assert(path_extends(pv, entries@[j].path@));
                        assert(0 <= u < users_dirs@.len());
                    };
                }
                found.append(&mut discovered);
                proof {
                    assert(found@ =~= fseq + dseq);
                    assert forall|j: int| 0 <= j < found@.len() implies discovered_profile(
                        users_dirs@,
                        spec_profile_root_rows()[i as int],
                        (#[trigger] found@[j])@,
                    ) by {
                        if j < fseq.len() {
                            assert(found@[j] == fseq[j]);
                        } else {
                            assert(found@[j] == dseq[j - fseq.len()]);
                        }
                    };
                }
            }
        }
        profiles.push(found);
    }
    let cache_rows = rows_profile_caches();
    let nrows = cache_rows.len();
    for r in 0..nrows
        invariant
            nrows == cache_rows@.len(),
            cache_rows@.map_values(|row: (usize, String)| (row.0, row.1@))
                == spec_profile_cache_rows(),
            profiles@.len() == spec_profile_root_rows().len(),
            forall|x: int, j: int|
                0 <= x < profiles@.len() && 0 <= j < (profiles@[x])@.len()
                    ==> discovered_profile(
                    users_dirs@,
                    spec_profile_root_rows()[x],
                    (#[trigger] (profiles@[x])@[j])@,
                ),
            target == (|c: TempComponent| clear_shape(c) && profile_cache_candidate(
                users_dirs@,
                c.path@,
            )),
            extends_with(old(components)@, components@, target),
    {
        proof {
            assert((cache_rows@[r as int].0, cache_rows@[r as int].1@)
                == spec_profile_cache_rows()[r as int]);
        }
        let idx = cache_rows[r].0;
        if idx < profiles.len() {
            let np = profiles[idx].len();
            for p in 0..np
                invariant
                    np == (profiles@[idx as int])@.len(),
                    idx < profiles@.len(),
                    r < nrows,
                    nrows == cache_rows@.len(),
                    cache_rows@.map_values(|row: (usize, String)| (row.0, row.1@))
                        == spec_profile_cache_rows(),
                    profiles@.len() == spec_profile_root_rows().len(),
                    idx == spec_profile_cache_rows()[r as int].0,
                    forall|x: int, j: int|
                        0 <= x < profiles@.len() && 0 <= j < (profiles@[x])@.len()
                            ==> discovered_profile(
                            users_dirs@,
                            spec_profile_root_rows()[x],
                            (#[trigger] (profiles@[x])@[j])@,
                        ),
                    target == (|c: TempComponent| clear_shape(c) && profile_cache_candidate(
                        users_dirs@,
                        c.path@,
                    )),
                    extends_with(old(components)@, components@, target),
            {
                let ghost before = components@;
                let ghost prof = ((profiles@[idx as int])@[p as int])@;
                let path = join_path(profiles[idx][p].as_str(), cache_rows[r].1.as_str());
                let ghost pv = path@;
                push_clear_component(components, path);
                proof {
                    assert((cache_rows@[r as int].0, cache_rows@[r as int].1@)
                        == spec_profile_cache_rows()[r as int]);
                    assert(pv == spec_join(prof, spec_profile_cache_rows()[r as int].1));
                    assert(discovered_profile(
                        users_dirs@,
                        spec_profile_root_rows()[idx as int],
                        prof,
                    ));
                    assert(profile_cache_candidate(users_dirs@, pv));
                    lemma_extends_weaken(
                        before,
                        components@,
                        |c: TempComponent| clear_shape(c) && c.path@ == pv,
                        target,
                    );
                    lemma_extends_trans(old(components)@, before, components@, target);
                }
            }
        }
    }
}

/// The fixed relative names of the legacy OS-upgrade backup locations.
pub open spec fn spec_legacy_backup_rows() -> Seq<Seq<char>> {
    seq![
        "\\Windows.old"@,
        "\\Windows.old.000"@,
        "\\Windows.old.001"@,
        "\\Windows.old.002"@,
        "\\Windows.old.003"@,
        "\\Windows.old.004"@,
        "\\Windows.old.005"@,
        "\\$WINDOWS.~BT"@,
        "\\$Windows.~WS"@,
    ]
}

/// The legacy OS-upgrade backup locations under the system drive.
pub fn rows_legacy_backup() -> (t: Vec<String>)
    ensures
        t.deep_view() == spec_legacy_backup_rows(),
{
    let mut t: Vec<String> = Vec::new();
    t.push(String::from_str("\\Windows.old"));
    t.push(String::from_str("\\Windows.old.000"));
    t.push(String::from_str("\\Windows.old.001"));
    t.push(String::from_str("\\Windows.old.002"));
    t.push(String::from_str("\\Windows.old.003"));
    t.push(String::from_str("\\Windows.old.004"));
    t.push(String::from_str("\\Windows.old.005"));
    t.push(String::from_str("\\$WINDOWS.~BT"));
    t.push(String::from_str("\\$Windows.~WS"));
    proof {
        assert(t.deep_view() =~= spec_legacy_backup_rows());
    }
    t
}

/// `p` is one of the nine fixed legacy-backup names under the system
/// drive.
pub open spec fn legacy_candidate(a: Anchors, p: Seq<char>) -> bool {
    exists|k: int|
        0 <= k < spec_legacy_backup_rows().len() && p == spec_join(
            a.system_drive@,
            #[trigger] spec_legacy_backup_rows()[k],
        )
}

/// Expand the legacy OS-upgrade backup locations. Every component this
/// adds is rooted at one of the nine fixed names under the system drive,
/// was indexed with more than one file, and has its root included in the
/// deletion pass.
pub fn windows_old(components: &mut Vec<TempComponent>, a: &Anchors)
    ensures
        extends_with(
            old(components)@,
            final(components)@,
            |c: TempComponent| legacy_shape(c) && legacy_candidate(*a, c.path@),
        ),
{
    let ghost target = |c: TempComponent| legacy_shape(c) && legacy_candidate(*a, c.path@);
    let rels = rows_legacy_backup();
    let n = rels.len();
    for i in 0..n
        invariant
            n == rels@.len(),
            rels.deep_view() == spec_legacy_backup_rows(),
            target == (|c: TempComponent| legacy_shape(c) && legacy_candidate(*a, c.path@)),
            extends_with(old(components)@, components@, target),
    {
        let ghost before = components@;
        let p = join_path(a.system_drive.as_str(), rels[i].as_str());
        let ghost pv = p@;
        push_legacy_component(components, p);
        proof {
            assert(rels.deep_view()[i as int] == rels@[i as int]@);
            assert(pv == spec_join(a.system_drive@, spec_legacy_backup_rows()[i as int]));
            assert(legacy_candidate(*a, pv));
            lemma_extends_weaken(
                before,
                components@,
                |c: TempComponent| legacy_shape(c) && c.path@ == pv,
                target,
            );
            lemma_extends_trans(old(components)@, before, components@, target);
        }
    }
}

/// Where every component of the working set may be rooted: at a
/// resolution of the main table (or the guarded temp value), at one of
/// the three loose-file anchors, at a cache row under a discovered
/// profile, or at a legacy-backup name under the system drive.
pub open spec fn working_set_candidate(
    a: Anchors,
    users: Seq<String>,
    temp_var: Option<String>,
    c: TempComponent,
) -> bool {
    ||| walk_all_candidate(a, users, temp_var, c.path@)
    ||| glob_file_shape(a, c)
    ||| profile_cache_candidate(users, c.path@)
    ||| legacy_candidate(a, c.path@)
}

/// Build the full working set in report order: the main table, the
/// loose-file table, the per-profile caches, and — only when requested —
/// the legacy OS-upgrade backups. Every component in the result was
/// indexed with more than one file, none has been deleted from yet, every
/// one is rooted where some expansion may root a component, and only a
/// legacy-backup expansion may include its root (depth 0) in the deletion
/// pass — without the legacy request, no component's root is ever
/// touched.
pub fn build_components(
    a: &Anchors,
    users_dirs: &Vec<String>,
    temp_var: &Option<String>,
    userprofile_var: &Option<String>,
    include_legacy_backup: bool,
) -> (r: Vec<TempComponent>)
    ensures
        forall|i: int|
            0 <= i < r@.len() ==> spec_retained(#[trigger] r@[i]) && !r@[i].needs_reboot,
        forall|i: int|
            0 <= i < r@.len() ==> (clear_shape(#[trigger] r@[i]) || ext_shape(r@[i])
                || legacy_shape(r@[i])),
        forall|i: int|
            0 <= i < r@.len() ==> working_set_candidate(
                *a,
                users_dirs@,
                *temp_var,
                #[trigger] r@[i],
            ),
        !include_legacy_backup ==> forall|i: int| 0 <= i < r@.len() ==> (#[trigger] r@[i]).min_depth
            == 1,
{
    let ghost keep = |c: TempComponent|
        {
            &&& spec_retained(c)
            &&& !c.needs_reboot
            &&& (clear_shape(c) || ext_shape(c) || legacy_shape(c))
            &&& working_set_candidate(*a, users_dirs@, *temp_var, c)
            &&& (include_legacy_backup || c.min_depth == 1)
        };
    let mut components: Vec<TempComponent> = Vec::new();
    let ghost s0 = components@;
    get_walk_all(&mut components, a, users_dirs, temp_var, userprofile_var);
    let ghost s1 = components@;
    proof {
        lemma_extends_weaken(
            s0,
            s1,
            |c: TempComponent| clear_shape(c) && walk_all_candidate(
                *a,
                users_dirs@,
                *temp_var,
                c.path@,
            ),
            keep,
        );
    }
    get_walk_glob_file(&mut components, a);
    let ghost s2 = components@;
    proof {
        lemma_extends_weaken(s1, s2, |c: TempComponent| glob_file_shape(*a, c), keep);
        lemma_extends_trans(s0, s1, s2, keep);
    }
    get_glob_folders_clear(&mut components, users_dirs);
    let ghost s3 = components@;
    proof {
        lemma_extends_weaken(
            s2,
            s3,
            |c: TempComponent| clear_shape(c) && profile_cache_candidate(users_dirs@, c.path@),
            keep,
        );
        lemma_extends_trans(s0, s2, s3, keep);
    }
    if include_legacy_backup {
        windows_old(&mut components, a);
        proof {
            lemma_extends_weaken(
                s3,
                components@,
                |c: TempComponent| legacy_shape(c) && legacy_candidate(*a, c.path@),
                keep,
            );
            lemma_extends_trans(s0, s3, components@, keep);
        }
    }
    components
}

} // verus!
