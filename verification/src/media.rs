//! Handing an exported PNG to the platform's media store, and the status
//! line that reports how that went.
//!
//! Only Android has a media store that exported files go to; on every
//! other platform saving is refused with an explanatory message.

use vstd::prelude::*;
use vstd::string::*;

verus! {

/// The message of a save attempted where no media store is available.
pub open spec fn unsupported_platform_message() -> Seq<char> {
    "mxross-android-media is only implemented for Android"@
}

/// The on-screen status line after trying to save an export: a success
/// line naming where it went, or the failure with its reason.
pub open spec fn export_status_message(saved: bool, failure: Seq<char>) -> Seq<char> {
    if saved {
        "Exported to Pictures/MxRoss/canvas.png"@
    } else {
        "Export failed: "@ + failure
    }
}

/// Writes `bytes` as `display_name` into the Pictures/`relative_subdir`
/// collection of the platform's media store. Off Android there is none,
/// so this always reports that saving is not supported.
pub fn save_png_to_pictures(display_name: &str, relative_subdir: &str, bytes: &[u8]) -> (r: Result<(), String>)
    ensures
        r is Err && r->Err_0@ == unsupported_platform_message(),
{
    Err(String::from_str("mxross-android-media is only implemented for Android"))
}

/// The status line for the outcome of a save.
pub fn export_status(outcome: &Result<(), String>) -> (m: String)
    ensures
        outcome is Ok ==> m@ == export_status_message(true, Seq::empty()),
        outcome is Err ==> m@ == export_status_message(false, outcome->Err_0@),
{
    match outcome {
        Ok(()) => String::from_str("Exported to Pictures/MxRoss/canvas.png"),
        Err(e) => {
            let mut m = String::from_str("Export failed: ");
            m.append(e.as_str());
            m
        },
    }
}

/// Saves an exported PNG as `Pictures/MxRoss/canvas.png` and returns a
/// short human-readable result for the on-screen status line.
pub fn save_export(bytes: &[u8]) -> (m: String)
    ensures
        m@ == export_status_message(false, unsupported_platform_message()),
{
    let outcome = save_png_to_pictures("canvas.png", "MxRoss", bytes);
    export_status(&outcome)
}

} // verus!
