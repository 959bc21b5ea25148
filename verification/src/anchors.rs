//! The environment resolver and user enumerator: canonical system paths
//! derived from environment strings (with documented defaults), validated
//! before any cleanup may run, plus the list of per-user profile roots.

use vstd::prelude::*;

use crate::disk::dir_exists;
use crate::disk::walk_tree;
use crate::paths::is_absolute_path;
use crate::paths::has_temp_file_name;
use crate::paths::join_path;
use crate::paths::parent_of;
use crate::paths::path_extends;
use crate::paths::parent_path;
use crate::paths::path_shape_absolute;
use crate::paths::spec_join;
use crate::paths::temp_file_name;

verus! {

/// The validated anchor map: every symbolic location the catalog can name,
/// resolved to an absolute path. Built once per run, read-only afterward.
#[derive(Clone, Debug)]
pub struct Anchors {
    pub system_drive: String,
    pub system_root: String,
    pub sys32: String,
    pub base_user_profile: String,
    pub all_user_profile: String,
    pub user_profile: String,
}

/// The supplied value, or the documented default.
pub open spec fn anchor_or(v: Option<String>, d: Seq<char>) -> Seq<char> {
    match v {
        Some(s) => s@,
        None => d,
    }
}

/// The system drive: the platform variable, or the canonical drive.
pub open spec fn spec_system_drive(sd: Option<String>) -> Seq<char> {
    anchor_or(sd, "C:"@)
}

/// The all-users profile root, defaulting under the system drive.
pub open spec fn spec_all_user_profile(aup: Option<String>, sd: Option<String>) -> Seq<char> {
    anchor_or(aup, spec_system_drive(sd) + "\\ProgramData"@)
}

/// The system root, defaulting under the system drive.
pub open spec fn spec_system_root(sr: Option<String>, sd: Option<String>) -> Seq<char> {
    anchor_or(sr, spec_system_drive(sd) + "\\Windows"@)
}

/// The system32 directory, always directly under the system root.
pub open spec fn spec_sys32(sr: Option<String>, sd: Option<String>) -> Seq<char> {
    spec_join(spec_system_root(sr, sd), "System32"@)
}

/// The invoking user's name, or the documented default account.
pub open spec fn spec_username(un: Option<String>) -> Seq<char> {
    anchor_or(un, "Default"@)
}

/// The invoking user's profile, defaulting to the conventional location.
pub open spec fn spec_user_profile(
    up: Option<String>,
    sd: Option<String>,
    un: Option<String>,
) -> Seq<char> {
    anchor_or(up, spec_system_drive(sd) + "\\Users\\"@ + spec_username(un))
}

/// The directory holding all user profiles: the user's profile shortened
/// by its final segment.
pub open spec fn spec_base_user_profile(
    up: Option<String>,
    sd: Option<String>,
    un: Option<String>,
) -> Seq<char> {
    parent_of(spec_user_profile(up, sd, un))
}

/// What a valid anchor must look like: an absolute path naming an existing
/// directory, and — for the variable-derived temp path — carrying a
/// temp-directory name as its final segment.
pub open spec fn spec_path_ok(p: Seq<char>, exists_dir: bool, check_temp: bool) -> bool {
    &&& path_shape_absolute(p)
    &&& exists_dir
    &&& (check_temp ==> temp_file_name(p))
}

/// The pure part of the path-safety check, over an already-probed
/// existence fact.
pub fn path_ok(path: &String, exists_dir: bool, check_temp: bool) -> (b: bool)
    ensures
        b == spec_path_ok(path@, exists_dir, check_temp),
{
    if !is_absolute_path(path.as_str()) {
        return false;
    }
    if !exists_dir {
        return false;
    }
    if check_temp && !has_temp_file_name(path.as_str()) {
        return false;
    }
    true
}

/// The path-safety check applied to every cleanup target: the path must be
/// absolute and name an existing directory; with `check_temp` it must also
/// end in a temp-directory name. A `true` answer guarantees the shape
/// conditions; existence comes from the disk probe, so only the negative
/// direction is pinned for it.
pub fn check_path(path: &String, check_temp: bool) -> (b: bool)
    ensures
        b ==> path_shape_absolute(path@),
        b && check_temp ==> temp_file_name(path@),
        !path_shape_absolute(path@) ==> !b,
        check_temp && !temp_file_name(path@) ==> !b,
{
    let exists = dir_exists(path);
    path_ok(path, exists, check_temp)
}

/// Derive every anchor from the supplied environment strings, applying the
/// documented defaults where a variable is absent. Purely computational:
/// no disk access, no validation.
pub fn derive_anchors(
    system_drive: Option<String>,
    all_user_profile: Option<String>,
    system_root: Option<String>,
    username: Option<String>,
    user_profile: Option<String>,
) -> (a: Anchors)
    ensures
        a.system_drive@ == spec_system_drive(system_drive),
        a.all_user_profile@ == spec_all_user_profile(all_user_profile, system_drive),
        a.system_root@ == spec_system_root(system_root, system_drive),
        a.sys32@ == spec_sys32(system_root, system_drive),
        a.user_profile@ == spec_user_profile(user_profile, system_drive, username),
        a.base_user_profile@ == spec_base_user_profile(user_profile, system_drive, username),
{
    let sd: String = match &system_drive {
        Some(s) => s.clone(),
        None => String::from_str("C:"),
    };
    let aup: String = match &all_user_profile {
        Some(s) => s.clone(),
        None => sd.clone().concat("\\ProgramData"),
    };
    let sr: String = match &system_root {
        Some(s) => s.clone(),
        None => sd.clone().concat("\\Windows"),
    };
    let sys32: String = join_path(sr.as_str(), "System32");
    let un: String = match &username {
        Some(s) => s.clone(),
        None => String::from_str("Default"),
    };
    let up: String = match &user_profile {
        Some(s) => s.clone(),
        None => sd.clone().concat("\\Users\\").concat(un.as_str()),
    };
    let base: String = parent_path(up.as_str());
    Anchors {
        system_drive: sd,
        system_root: sr,
        sys32,
        base_user_profile: base,
        all_user_profile: aup,
        user_profile: up,
    }
}

/// Validate the required anchors in a fixed order. A failure of any one is
/// fatal to the run: no deletion may happen against an unverified
/// environment. An anchor whose shape is not absolute always fails.
pub fn validate_anchors(a: &Anchors) -> (r: Result<(), String>)
    ensures
        r is Ok ==> {
            &&& path_shape_absolute(a.system_root@)
            &&& path_shape_absolute(a.sys32@)
            &&& path_shape_absolute(a.base_user_profile@)
            &&& path_shape_absolute(a.all_user_profile@)
            &&& path_shape_absolute(a.user_profile@)
        },
        !path_shape_absolute(a.system_root@) ==> r is Err,
        !path_shape_absolute(a.sys32@) ==> r is Err,
        !path_shape_absolute(a.base_user_profile@) ==> r is Err,
        !path_shape_absolute(a.all_user_profile@) ==> r is Err,
        !path_shape_absolute(a.user_profile@) ==> r is Err,
        r matches Err(p) ==> (p@ == a.system_root@ || p@ == a.sys32@ || p@
            == a.base_user_profile@ || p@ == a.all_user_profile@ || p@ == a.user_profile@),
{
    if !check_path(&a.system_root, false) {
        return Err(a.system_root.clone());
    }
    if !check_path(&a.sys32, false) {
        return Err(a.sys32.clone());
    }
    if !check_path(&a.base_user_profile, false) {
        return Err(a.base_user_profile.clone());
    }
    if !check_path(&a.all_user_profile, false) {
        return Err(a.all_user_profile.clone());
    }
    if !check_path(&a.user_profile, false) {
        return Err(a.user_profile.clone());
    }
    Ok(())
}

/// Derive and validate the anchors in one step; the error carries the
/// offending path. A derived anchor whose shape is not absolute always
/// fails the run; success further requires every probe to have found the
/// directory, which only the disk decides.
pub fn resolve_system_anchors(
    system_drive: Option<String>,
    all_user_profile: Option<String>,
    system_root: Option<String>,
    username: Option<String>,
    user_profile: Option<String>,
) -> (r: Result<Anchors, String>)
    ensures
        r matches Ok(a) ==> {
            &&& a.system_drive@ == spec_system_drive(system_drive)
            &&& a.all_user_profile@ == spec_all_user_profile(all_user_profile, system_drive)
            &&& a.system_root@ == spec_system_root(system_root, system_drive)
            &&& a.sys32@ == spec_sys32(system_root, system_drive)
            &&& a.user_profile@ == spec_user_profile(user_profile, system_drive, username)
            &&& a.base_user_profile@ == spec_base_user_profile(user_profile, system_drive, username)
            &&& path_shape_absolute(a.system_root@)
            &&& path_shape_absolute(a.sys32@)
            &&& path_shape_absolute(a.base_user_profile@)
            &&& path_shape_absolute(a.all_user_profile@)
            &&& path_shape_absolute(a.user_profile@)
        },
        !path_shape_absolute(spec_system_root(system_root, system_drive)) ==> r is Err,
        !path_shape_absolute(spec_sys32(system_root, system_drive)) ==> r is Err,
        !path_shape_absolute(spec_base_user_profile(user_profile, system_drive, username))
            ==> r is Err,
        !path_shape_absolute(spec_all_user_profile(all_user_profile, system_drive)) ==> r is Err,
        !path_shape_absolute(spec_user_profile(user_profile, system_drive, username)) ==> r is Err,
        r matches Err(p) ==> (p@ == spec_system_root(system_root, system_drive) || p@ == spec_sys32(
            system_root,
            system_drive,
        ) || p@ == spec_base_user_profile(user_profile, system_drive, username) || p@
            == spec_all_user_profile(all_user_profile, system_drive) || p@ == spec_user_profile(
            user_profile,
            system_drive,
            username,
        )),
{
    let a = derive_anchors(system_drive, all_user_profile, system_root, username, user_profile);
    match validate_anchors(&a) {
        Ok(()) => Ok(a),
        Err(p) => Err(p),
    }
}

/// Every per-user profile directory found directly under the base profile
/// root, followed by the two fixed service-account profiles, which are
/// appended whether or not they exist. What the walk discovers only the
/// disk decides, but every discovered element lies strictly below the
/// base profile root.
pub fn get_users_dirs(a: &Anchors) -> (r: Vec<String>)
    ensures
        r@.len() >= 2,
        r@[r@.len() - 2]@ == spec_join(a.system_root@, "ServiceProfiles\\LocalService"@),
        r@[r@.len() - 1]@ == spec_join(a.system_root@, "NetworkService\\LocalService"@),
        forall|i: int|
            0 <= i < r@.len() - 2 ==> path_extends(a.base_user_profile@, (#[trigger] r@[i])@),
{
    let entries = walk_tree(&a.base_user_profile, 1, 1);
    let mut r: Vec<String> = Vec::new();
    let n = entries.len();
    for i in 0..n
        invariant
            n == entries@.len(),
            forall|j: int|
                0 <= j < entries@.len() ==> ((#[trigger] entries@[j]).depth >= 1
                    && entries@[j].path@.len() > a.base_user_profile@.len()
                    && entries@[j].path@.subrange(0, a.base_user_profile@.len() as int)
                    == a.base_user_profile@),
            forall|j: int|
                0 <= j < r@.len() ==> path_extends(a.base_user_profile@, (#[trigger] r@[j])@),
    {
        if entries[i].is_dir {
            r.push(entries[i].path.clone());
        }
    }
    r.push(join_path(a.system_root.as_str(), "ServiceProfiles\\LocalService"));
    r.push(join_path(a.system_root.as_str(), "NetworkService\\LocalService"));
    r
}

} // verus!
