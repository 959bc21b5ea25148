use kptemp::component::FilterPolicy;
use kptemp::component::TempComponent;
use kptemp::report::aggregate_totals;
use kptemp::report::build_report;
use kptemp::report::report_file_path;
use kptemp::report::success_message;
use kptemp::report::u64_to_dec;
use kptemp::ui::CheckState;
use kptemp::ui::KPTempErrors;
use kptemp::ui::TOTAL_STEP;
use kptemp::ui::padding_advances;

fn comp(path: &str, count: u64, total_bytes: u64) -> TempComponent {
    TempComponent {
        path: path.to_string(),
        filter: FilterPolicy::Unrestricted,
        min_depth: 1,
        max_depth: usize::MAX,
        count,
        total_bytes,
        needs_reboot: false,
    }
}

#[test]
fn decimal_spelling() {
    assert_eq!(u64_to_dec(0), "0");
    assert_eq!(u64_to_dec(7), "7");
    assert_eq!(u64_to_dec(10), "10");
    assert_eq!(u64_to_dec(105), "105");
    assert_eq!(u64_to_dec(9999), "9999");
    assert_eq!(u64_to_dec(u64::MAX), "18446744073709551615");
}

#[test]
fn grand_total_is_component_sums_plus_recycle_bin() {
    let cs = vec![comp("C:\\a", 5, 100), comp("C:\\b", 3, 50)];
    let (count, bytes) = aggregate_totals(&cs, 2, 10);
    assert_eq!(count, 10);
    assert_eq!(bytes, 160);
}

#[test]
fn grand_total_of_no_components_is_the_recycle_bin_alone() {
    let cs: Vec<TempComponent> = vec![];
    let (count, bytes) = aggregate_totals(&cs, 7, 1234);
    assert_eq!(count, 7);
    assert_eq!(bytes, 1234);
}

#[test]
fn grand_total_saturates() {
    let cs = vec![comp("C:\\a", u64::MAX, u64::MAX), comp("C:\\b", 3, 50)];
    let (count, bytes) = aggregate_totals(&cs, 2, 10);
    assert_eq!(count, u64::MAX);
    assert_eq!(bytes, u64::MAX);
}

#[test]
fn empty_report_holds_exactly_the_fixed_lines() {
    // Zero components retained: the document is the header, the
    // no-records line, the recycle-bin line, and a total equal to the
    // recycle-bin figures alone.
    let cs: Vec<TempComponent> = vec![];
    let labels: Vec<String> = vec![];
    let (count, bytes) = aggregate_totals(&cs, 2, 10);
    assert_eq!((count, bytes), (2, 10));
    let r = build_report(
        &"Mon Jan  1 00:00:00 2024".to_string(),
        &cs,
        &labels,
        2,
        &"10 B".to_string(),
        count,
        &"10 B".to_string(),
    );
    assert_eq!(
        r,
        "KpTemp v1.4 by kernel-panik\r\nDate: Mon Jan  1 00:00:00 2024\r\n\r\n\
         No records found\n\
         Recycle Bin : 2 files => 10 B deleted\r\n\r\n\
         Total : 2 files => 10 B deleted\r\n"
    );
}

#[test]
fn report_lists_components_in_order() {
    let cs = vec![comp("C:\\Windows\\Temp", 5, 100), comp("C:\\Users\\bob\\AppData\\Local\\Temp", 3, 50)];
    let labels = vec!["100 B".to_string(), "50 B".to_string()];
    let r = build_report(
        &"D".to_string(),
        &cs,
        &labels,
        1,
        &"10 B".to_string(),
        9,
        &"160 B".to_string(),
    );
    assert_eq!(
        r,
        "KpTemp v1.4 by kernel-panik\r\nDate: D\r\n\r\n\
         C:\\Windows\\Temp : 5 files => 100 B deleted\r\n\
         C:\\Users\\bob\\AppData\\Local\\Temp : 3 files => 50 B deleted\r\n\
         Recycle Bin : 1 files => 10 B deleted\r\n\r\n\
         Total : 9 files => 160 B deleted\r\n"
    );
}

#[test]
fn report_path_is_a_stamped_desktop_file() {
    assert_eq!(
        report_file_path("C:\\Users\\bob", "2024-01-02_03-04-05"),
        "C:\\Users\\bob\\Desktop\\KpTemp_2024-01-02_03-04-05.txt"
    );
}

#[test]
fn success_message_spells_the_totals() {
    assert_eq!(
        success_message(10, &"160 B".to_string()),
        "Success 10 files and 160 B deleted"
    );
}

#[test]
fn error_descriptions() {
    assert_eq!(
        KPTempErrors::SystemClassCreation.translate(),
        "Failed to create a system class for a control"
    );
    assert_eq!(
        KPTempErrors::WindowCreationFail.translate(),
        "Failed to create a system window for a control"
    );
    assert_eq!(KPTempErrors::ProgressBar("x".to_string()).translate(), "Progressbar: x");
    assert_eq!(KPTempErrors::Button("y".to_string()).translate(), "Button: y");
    assert_eq!(KPTempErrors::Label("z".to_string()).translate(), "Label: z");
    assert_eq!(KPTempErrors::Checkbox("w".to_string()).translate(), "Checkbox: w");
}

#[test]
fn padding_fills_the_progress_plan() {
    assert_eq!(padding_advances(0), 88);
    assert_eq!(padding_advances(10), 68);
    assert_eq!(padding_advances(44), 0);
    assert_eq!(padding_advances(50), 0);
    assert_eq!(TOTAL_STEP, 141);
}

#[test]
fn check_state_models_the_legacy_backup_opt_in() {
    let include_legacy = CheckState::Checked;
    assert!(include_legacy == CheckState::Checked);
    assert!(CheckState::Unchecked != CheckState::Checked);
    assert!(CheckState::Indeterminate != CheckState::Checked);
}
