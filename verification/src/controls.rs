//! Decisions of the interface's controls: the settings window's buttons and
//! the list of serial devices offered.

use vstd::prelude::*;

verus! {

/// What the advanced settings window asks for after a frame.
#[allow(non_camel_case_types, clippy::upper_case_acronyms)]
#[derive(Clone, Copy, Debug, PartialEq, Eq, Structural)]
pub enum WindowResponse {
    IDLE,
    SAVE,
    CANCEL,
}

/// The window's answer to its buttons: `CANCEL` when Cancel was clicked
/// (whatever Save did), else `SAVE` when Save was clicked, else `IDLE`.
pub fn settings_window_response(save_clicked: bool, cancel_clicked: bool) -> (response: WindowResponse)
    ensures
        cancel_clicked ==> response == WindowResponse::CANCEL,
        !cancel_clicked && save_clicked ==> response == WindowResponse::SAVE,
        !cancel_clicked && !save_clicked ==> response == WindowResponse::IDLE,
{
    let mut response = WindowResponse::IDLE;
    if save_clicked {
        response = WindowResponse::SAVE;
    }
    if cancel_clicked {
        response = WindowResponse::CANCEL;
    }
    response
}

/// The entry offered when no serial device can be listed.
pub open spec fn no_devices_text() -> Seq<char> {
    "no devices found"@
}

pub open spec fn choices_view(choices: Seq<String>) -> Seq<Seq<char>> {
    choices.map_values(|c: String| c@)
}

/// The devices offered in the device menu: the listed device paths, in the
/// order listed, or the single entry "no devices found" when listing failed.
pub fn device_choices(listing: Option<Vec<String>>) -> (choices: Vec<String>)
    ensures
        listing matches Some(paths) ==> choices@ == paths@,
        listing is None ==> choices_view(choices@) == seq![no_devices_text()],
{
    match listing {
        Some(paths) => paths,
        None => {
            let mut choices: Vec<String> = Vec::new();
            choices.push(String::from_str("no devices found"));
            assert(choices_view(choices@) =~= seq![no_devices_text()]);
            choices
        },
    }
}

} // verus!
