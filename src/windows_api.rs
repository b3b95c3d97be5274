//! Window-style arithmetic and result checks behind the capture-exclusion
//! and click-through toggles, and the platform capability probe.
use vstd::prelude::*;

verus! {

/// Message reported by the capability probe on a supported system.
pub const VERSION_OK: &'static str = "Windows 10/11 (version check OK)";

/// Extended window style bit that lets pointer input fall through.
pub const WS_EX_TRANSPARENT: isize = 0x20;

/// Extended window style bit that marks a layered window.
pub const WS_EX_LAYERED: isize = 0x80000;

/// Error text when the layered attributes could not be set.
pub const LAYERED_ERROR: &'static str = "SetLayeredWindowAttributes failed";

/// Error text when the display affinity could not be set.
pub const AFFINITY_ERROR: &'static str = "SetWindowDisplayAffinity failed - requires Windows 10 Build 2004+";

/// Reports whether the platform supports capture exclusion. Support is
/// established by attempting the call itself, so the probe always succeeds.
pub fn check_windows_version() -> (r: Result<String, String>)
    ensures
        r is Ok,
        r->Ok_0@ == VERSION_OK@,
{
    Ok(VERSION_OK.to_owned())
}

/// Extended style with the layered bit added, as capture exclusion needs.
pub fn layered_style(ex_style: isize) -> (r: isize)
    ensures
        r == ex_style | WS_EX_LAYERED,
{
    ex_style | WS_EX_LAYERED
}

/// Extended style with the click-through bit set or cleared.
pub fn click_through_style(ex_style: isize, enabled: bool) -> (r: isize)
    ensures
        enabled ==> r == ex_style | WS_EX_TRANSPARENT,
        !enabled ==> r == ex_style & !WS_EX_TRANSPARENT,
{
    if enabled {
        ex_style | WS_EX_TRANSPARENT
    } else {
        ex_style & !WS_EX_TRANSPARENT
    }
}

/// Outcome of capture exclusion from its two OS calls: whether the layered
/// attributes were set, and the display-affinity call's return value
/// (0 means failure). The first failure is the one reported.
pub fn capture_exclusion_outcome(layered_ok: bool, affinity_result: i32) -> (r: Result<(), String>)
    ensures
        r is Ok <==> (layered_ok && affinity_result != 0),
        !layered_ok ==> r is Err && r->Err_0@ == LAYERED_ERROR@,
        layered_ok && affinity_result == 0 ==> r is Err && r->Err_0@ == AFFINITY_ERROR@,
{
    if !layered_ok {
        return Err(LAYERED_ERROR.to_owned());
    }
    if affinity_result == 0 {
        return Err(AFFINITY_ERROR.to_owned());
    }
    Ok(())
}

} // verus!
