//! The vocabulary shared with the presentation shell: the control kinds
//! and states its widgets speak of, the error descriptions it shows, and
//! the progress-step accounting the engine owes the progress indicator.

use vstd::prelude::*;

verus! {

/// The total number of progress-advance signals one run emits.
pub const TOTAL_STEP: u32 = 141;

/// How many catalog expansions the progress plan expects; runs that
/// discover fewer components pad the difference with synthetic advances.
pub const EXPECTED_ROWS: u64 = 44;

/// The kind of a shell control.
#[derive(Clone, Debug)]
pub enum ControlType {
    Button,
    CheckBox,
    Label,
    ProgressBar,
    Undefined,
}

/// Horizontal text alignment of a shell control.
#[derive(PartialEq, Debug, Clone)]
pub enum HTextAlign {
    Center,
    Left,
}

/// The state of a shell checkbox, as the legacy-backup opt-in reads it.
#[derive(PartialEq, Debug, Clone)]
pub enum CheckState {
    Checked,
    Unchecked,
    Indeterminate,
}

/// The state of the shell progress indicator.
#[derive(Clone, PartialEq, Debug)]
pub enum ProgressBarState {
    Normal,
}

/// What can go wrong while the shell builds its controls.
pub enum KPTempErrors {
    SystemClassCreation,
    WindowCreationFail,
    ProgressBar(String),
    Button(String),
    Label(String),
    Checkbox(String),
}

impl KPTempErrors {
    /// The human-readable description of the error.
    pub fn translate(&self) -> (r: String)
        ensures
            r@ == match *self {
                KPTempErrors::SystemClassCreation => "Failed to create a system class for a control"@,
                KPTempErrors::WindowCreationFail => "Failed to create a system window for a control"@,
                KPTempErrors::ProgressBar(e) => "Progressbar: "@ + e@,
                KPTempErrors::Button(e) => "Button: "@ + e@,
                KPTempErrors::Label(e) => "Label: "@ + e@,
                KPTempErrors::Checkbox(e) => "Checkbox: "@ + e@,
            },
    {
        match self {
            KPTempErrors::SystemClassCreation => String::from_str(
                "Failed to create a system class for a control",
            ),
            KPTempErrors::WindowCreationFail => String::from_str(
                "Failed to create a system window for a control",
            ),
            KPTempErrors::ProgressBar(e) => String::from_str("Progressbar: ").concat(e.as_str()),
            KPTempErrors::Button(e) => String::from_str("Button: ").concat(e.as_str()),
            KPTempErrors::Label(e) => String::from_str("Label: ").concat(e.as_str()),
            KPTempErrors::Checkbox(e) => String::from_str("Checkbox: ").concat(e.as_str()),
        }
    }
}

/// How many synthetic progress advances a run owes when fewer components
/// were discovered than the progress plan expects; a run that discovers
/// at least the expected number owes none.
pub fn padding_advances(n_components: usize) -> (r: u64)
    ensures
        n_components < EXPECTED_ROWS ==> r == (EXPECTED_ROWS - n_components as u64) * 2,
        n_components >= EXPECTED_ROWS ==> r == 0,
{
    let n = n_components as u64;
    if n < EXPECTED_ROWS {
        (EXPECTED_ROWS - n) * 2
    } else {
        0
    }
}

} // verus!
