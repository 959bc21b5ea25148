use kptemp::anchors::check_path;
use kptemp::anchors::derive_anchors;
use kptemp::anchors::get_users_dirs;
use kptemp::anchors::path_ok;
use kptemp::anchors::resolve_system_anchors;
use kptemp::anchors::validate_anchors;
use kptemp::catalog::RowAnchor;
use kptemp::component::TempComponent;
use kptemp::catalog::build_components;
use kptemp::catalog::rows_glob_file;
use kptemp::catalog::rows_legacy_backup;
use kptemp::catalog::rows_profile_caches;
use kptemp::catalog::rows_profile_roots;
use kptemp::catalog::rows_walk_all;

#[test]
fn defaults_fill_every_absent_variable() {
    let a = derive_anchors(None, None, None, None, None);
    assert_eq!(a.system_drive, "C:");
    assert_eq!(a.all_user_profile, "C:\\ProgramData");
    assert_eq!(a.system_root, "C:\\Windows");
    assert_eq!(a.sys32, "C:\\Windows\\System32");
    assert_eq!(a.user_profile, "C:\\Users\\Default");
    assert_eq!(a.base_user_profile, "C:\\Users");
}

#[test]
fn supplied_variables_win_over_defaults() {
    let a = derive_anchors(
        Some("D:".to_string()),
        Some("D:\\PD".to_string()),
        Some("D:\\Win".to_string()),
        Some("alice".to_string()),
        Some("D:\\Homes\\alice".to_string()),
    );
    assert_eq!(a.system_drive, "D:");
    assert_eq!(a.all_user_profile, "D:\\PD");
    assert_eq!(a.system_root, "D:\\Win");
    assert_eq!(a.sys32, "D:\\Win\\System32");
    assert_eq!(a.user_profile, "D:\\Homes\\alice");
    assert_eq!(a.base_user_profile, "D:\\Homes");
}

#[test]
fn username_feeds_the_profile_default() {
    let a = derive_anchors(None, None, None, Some("alice".to_string()), None);
    assert_eq!(a.user_profile, "C:\\Users\\alice");
    assert_eq!(a.base_user_profile, "C:\\Users");
}

#[test]
fn path_ok_demands_shape_existence_and_temp_name() {
    assert!(!path_ok(&"relative\\path".to_string(), true, false));
    assert!(!path_ok(&"C:\\Windows".to_string(), false, false));
    assert!(path_ok(&"C:\\Windows".to_string(), true, false));
    assert!(!path_ok(&"C:\\Windows".to_string(), true, true));
    assert!(path_ok(&"C:\\Windows\\Temp".to_string(), true, true));
}

#[test]
fn check_path_rejects_relative_paths_outright() {
    assert!(!check_path(&"relative\\path".to_string(), false));
    assert!(!check_path(&"C:no-root".to_string(), true));
}

#[test]
fn missing_anchor_is_fatal() {
    // On a machine without these directories the very first anchor fails
    // validation, and the run must be abandoned before any deletion.
    let a = derive_anchors(None, None, None, None, None);
    let r = validate_anchors(&a);
    assert_eq!(r, Err("C:\\Windows".to_string()));
    let r2 = resolve_system_anchors(None, None, None, None, None);
    assert_eq!(r2.err(), Some("C:\\Windows".to_string()));
}

#[test]
fn service_profiles_are_always_appended() {
    let a = derive_anchors(None, None, None, None, None);
    let users = get_users_dirs(&a);
    assert!(users.len() >= 2);
    assert_eq!(users[users.len() - 2], "C:\\Windows\\ServiceProfiles\\LocalService");
    assert_eq!(users[users.len() - 1], "C:\\Windows\\NetworkService\\LocalService");
}

#[test]
fn catalog_tables_have_the_fixed_sizes() {
    assert_eq!(rows_walk_all().len(), 34);
    assert_eq!(rows_glob_file().len(), 3);
    assert_eq!(rows_profile_roots().len(), 5);
    assert_eq!(rows_profile_caches().len(), 15);
    assert_eq!(rows_legacy_backup().len(), 9);
}

#[test]
fn catalog_rows_keep_the_fixed_table_order() {
    let rows = rows_walk_all();
    assert!(matches!(rows[0].anchor, RowAnchor::SystemRoot));
    assert_eq!(rows[0].rel, "Temp");
    assert!(matches!(rows[7].anchor, RowAnchor::AllUserProfile));
    assert_eq!(rows[7].rel, "Temp");
    assert!(matches!(rows[8].anchor, RowAnchor::Users));
    assert_eq!(rows[8].rel, "AppData\\Local\\Temp");
    assert!(matches!(rows[33].anchor, RowAnchor::SystemDrive));
    assert_eq!(rows[33].rel, "\\Config.Msi");
    let legacy = rows_legacy_backup();
    assert_eq!(legacy[0], "\\Windows.old");
    assert_eq!(legacy[8], "\\$Windows.~WS");
    let caches = rows_profile_caches();
    assert_eq!(caches[0], (0, "cache2".to_string()));
    assert_eq!(caches[8], (2, "".to_string()));
}

#[test]
fn expansion_of_missing_location_adds_nothing() {
    let mut v: Vec<TempComponent> = Vec::new();
    kptemp::catalog::push_clear_component(&mut v, "C:\\no\\such\\dir".to_string());
    kptemp::catalog::push_extension_component(
        &mut v,
        "C:\\no\\such\\dir".to_string(),
        "tmp".to_string(),
    );
    kptemp::catalog::push_legacy_component(&mut v, "C:\\Windows.old".to_string());
    // A relative path fails the shape check before any probe.
    kptemp::catalog::push_clear_component(&mut v, "relative\\dir".to_string());
    assert!(v.is_empty());
}

#[test]
fn nothing_on_disk_means_an_empty_working_set() {
    // Every catalog entry resolves to a path that does not exist here, so
    // no component enters the working set.
    let a = derive_anchors(None, None, None, None, None);
    let users = get_users_dirs(&a);
    let components = build_components(
        &a,
        &users,
        &Some("C:\\Windows\\Temp".to_string()),
        &Some("C:\\Users\\Default".to_string()),
        true,
    );
    assert!(components.is_empty());
}
