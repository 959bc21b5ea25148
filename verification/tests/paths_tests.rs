use kptemp::paths::chars_eq_str;
use kptemp::paths::extension_matches;
use kptemp::paths::file_name_chars;
use kptemp::paths::has_temp_file_name;
use kptemp::paths::is_absolute_path;
use kptemp::paths::join_path;
use kptemp::paths::parent_path;
use kptemp::paths::str_chars;
use kptemp::paths::strip_trailing_separators;

#[test]
fn join_inserts_single_backslash() {
    assert_eq!(join_path("C:\\Windows", "System32"), "C:\\Windows\\System32");
}

#[test]
fn join_keeps_rooted_relative_paths() {
    assert_eq!(join_path("C:", "\\Config.Msi"), "C:\\Config.Msi");
}

#[test]
fn join_respects_trailing_separator() {
    assert_eq!(join_path("C:\\", "Temp"), "C:\\Temp");
}

#[test]
fn join_with_empty_relative_adds_separator() {
    assert_eq!(join_path("C:\\Users\\bob", ""), "C:\\Users\\bob\\");
}

#[test]
fn parent_strips_last_segment() {
    assert_eq!(parent_path("C:\\Users\\bob"), "C:\\Users");
}

#[test]
fn parent_of_separatorless_path_is_empty() {
    assert_eq!(parent_path("nobackslash"), "");
}

#[test]
fn parent_of_trailing_separator_drops_it() {
    assert_eq!(parent_path("C:\\Users\\"), "C:\\Users");
}

#[test]
fn extension_match_simple() {
    assert!(extension_matches("C:\\t\\a.tmp", "tmp"));
}

#[test]
fn extension_match_is_case_sensitive() {
    assert!(!extension_matches("C:\\t\\a.TMP", "tmp"));
}

#[test]
fn extension_match_requires_a_dot() {
    assert!(!extension_matches("C:\\t\\atmp", "tmp"));
}

#[test]
fn leading_dot_is_no_extension() {
    assert!(!extension_matches("C:\\t\\.tmp", "tmp"));
}

#[test]
fn dot_in_directory_is_no_extension() {
    assert!(!extension_matches("C:\\t.tmp\\a", "tmp"));
}

#[test]
fn last_dot_decides_the_extension() {
    assert!(extension_matches("C:\\t\\a.b.tmp", "tmp"));
    assert!(!extension_matches("C:\\t\\a.tmp.b", "tmp"));
}

#[test]
fn forward_slashes_separate_too() {
    assert!(extension_matches("C:/t/a.tmp", "tmp"));
    let name: Vec<char> = file_name_chars("C:\\a/b\\c.txt");
    assert_eq!(name.iter().collect::<String>(), "c.txt");
}

#[test]
fn absolute_path_shapes() {
    assert!(is_absolute_path("C:\\Windows"));
    assert!(is_absolute_path("d:/data"));
    assert!(is_absolute_path("\\\\server\\share"));
    assert!(!is_absolute_path("C:relative"));
    assert!(!is_absolute_path("\\rooted-only"));
    assert!(!is_absolute_path("plain\\relative"));
    assert!(!is_absolute_path(""));
}

#[test]
fn temp_name_guard_accepts_the_four_spellings() {
    assert!(has_temp_file_name("C:\\Users\\b\\AppData\\Local\\Temp"));
    assert!(has_temp_file_name("C:\\Tmp"));
    assert!(has_temp_file_name("C:\\x\\temp"));
    assert!(has_temp_file_name("C:\\x\\tmp"));
}

#[test]
fn temp_name_guard_rejects_other_names() {
    assert!(!has_temp_file_name("C:\\x\\Temperatures"));
    assert!(!has_temp_file_name("C:\\x\\TEMP"));
    assert!(!has_temp_file_name("C:\\x\\data"));
    assert!(!has_temp_file_name("C:\\x\\"));
}

#[test]
fn chars_round_trip() {
    let v = str_chars("kptemp");
    assert_eq!(v, vec!['k', 'p', 't', 'e', 'm', 'p']);
    assert!(chars_eq_str(&v, "kptemp"));
    assert!(!chars_eq_str(&v, "kptem"));
    assert!(!chars_eq_str(&v, "kptemq"));
}

#[test]
fn trailing_separators_are_stripped() {
    assert_eq!(strip_trailing_separators("C:\\Temp\\"), "C:\\Temp");
    assert_eq!(strip_trailing_separators("C:\\Temp"), "C:\\Temp");
    assert_eq!(strip_trailing_separators("C:/tmp//"), "C:/tmp");
    assert_eq!(strip_trailing_separators("\\\\"), "");
}

#[test]
fn trailing_separators_do_not_hide_the_temp_name() {
    assert!(has_temp_file_name("C:\\Temp\\"));
    assert!(has_temp_file_name("C:\\Users\\b\\tmp/"));
    assert!(!has_temp_file_name("C:\\data\\"));
}
