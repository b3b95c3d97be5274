//! Plain computations behind the application's smaller commands.
use vstd::prelude::*;

verus! {

/// Language identifier of the Hungarian keyboard layout.
pub const LANG_HUNGARIAN: u32 = 0x040E;

/// Error text when the window is on no monitor.
pub const NO_MONITOR_ERROR: &'static str = "No monitor found";

/// Notice shown to the user before first use.
pub const ETHICAL_NOTICE: &'static str = "ScreenPrompt is intended for legitimate use only, such as:\n- Presentations and meetings\n- Content creation\n- Personal productivity\n\nDO NOT use this software for:\n- Cheating on exams or assessments\n- Violating academic integrity policies\n- Breaking terms of service of any platform\n- Any illegal activities\n\nYou are solely responsible for how you use this software.\n\nThis software runs 100% locally. No data collection, no telemetry.\n\nBy clicking OK, you acknowledge that you understand and agree to use\nthis software responsibly and ethically.";

/// The usage notice.
pub fn show_ethical_notice() -> (r: String)
    ensures
        r@ == ETHICAL_NOTICE@,
{
    ETHICAL_NOTICE.to_owned()
}

/// Two-letter code of the keyboard layout whose identifier's low word is
/// the language: "hu" for Hungarian, "en" for anything else.
pub fn layout_code(layout: u32) -> (r: String)
    ensures
        layout & 0xFFFF == LANG_HUNGARIAN ==> r@ == "hu"@,
        layout & 0xFFFF != LANG_HUNGARIAN ==> r@ == "en"@,
{
    if layout & 0xFFFF == LANG_HUNGARIAN {
        "hu".to_owned()
    } else {
        "en".to_owned()
    }
}

/// Screen size from the current monitor's size, if the window is on one.
pub fn screen_size(monitor: Option<(u32, u32)>) -> (r: Result<(u32, u32), String>)
    ensures
        monitor is Some <==> r is Ok,
        monitor is Some ==> r->Ok_0 == monitor->Some_0,
        monitor is None ==> r is Err && r->Err_0@ == NO_MONITOR_ERROR@,
{
    match monitor {
        Some(size) => Ok(size),
        None => Err(NO_MONITOR_ERROR.to_owned()),
    }
}

} // verus!
