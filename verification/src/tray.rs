//! The tray's decisions: which controls are enabled and what the clock
//! text shows. Rendering them is the presentation layer's business; the
//! choices are made here.

use vstd::prelude::*;
use vstd::string::StringExecFns;

use crate::duration::format_duration;
use crate::duration::format_duration_seq;

verus! {

/// Which tray controls are offered.
#[derive(Clone, Copy, PartialEq, Eq, Structural, Debug)]
pub struct TrayControls {
    /// Start is offered only with a project selected and no session
    /// already running.
    pub start_enabled: bool,
    /// Stop is offered exactly while a session is running.
    pub stop_enabled: bool,
}

/// Decides which tray controls are enabled.
pub fn tray_controls(logged_in: bool, project_selected: bool, has_active_session: bool) -> (r:
    TrayControls)
    ensures
        r.start_enabled == (logged_in && project_selected && !has_active_session),
        r.stop_enabled == (logged_in && has_active_session),
{
    TrayControls {
        start_enabled: logged_in && project_selected && !has_active_session,
        stop_enabled: logged_in && has_active_session,
    }
}

/// The tray clock text: placeholder dashes while logged out, a zero
/// total while no project is selected, otherwise the day total.
pub fn tray_time_text(logged_in: bool, project_selected: bool, total_seconds: u64) -> (r: String)
    ensures
        !logged_in ==> r@ == "--:--:--"@,
        logged_in && !project_selected ==> r@ == format_duration_seq(0),
        logged_in && project_selected ==> r@ == format_duration_seq(total_seconds as nat),
{
    if !logged_in {
        String::from_str("--:--:--")
    } else if !project_selected {
        format_duration(0)
    } else {
        format_duration(total_seconds)
    }
}

} // verus!
