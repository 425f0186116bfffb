//! What happens to the main window once the readiness wait ends: it is
//! shown either way, and its content moves to the backend's URL only when
//! the backend became reachable — otherwise it stays on the placeholder.

use vstd::prelude::*;
use vstd::string::*;
use crate::endpoint::{backend_url, backend_url_text};

verus! {

/// The UI steps that follow the readiness wait, all best-effort for the
/// surrounding windowing layer.
pub struct StartupActions {
    /// Where to point the main window, when the backend answered; nothing
    /// keeps the placeholder content.
    pub navigate_to: Option<String>,
    /// The main window is un-minimized, shown and focused in every case.
    pub show_main: bool,
    /// The popup window is created (hidden) in every case, so the first
    /// tray click finds it.
    pub ensure_popup: bool,
}

/// Decides the hand-off at the end of the readiness wait: show the window
/// always, redirect it to the backend only on confirmed readiness.
pub fn after_readiness_wait(ready: bool, ui_host: &str, port: u16) -> (a: StartupActions)
    ensures
        a.show_main,
        a.ensure_popup,
        ready <==> a.navigate_to is Some,
        a.navigate_to matches Some(u) ==> u@ == backend_url_text(ui_host@, port),
{
    let navigate_to = if ready {
        Some(backend_url(ui_host, port))
    } else {
        None
    };
    StartupActions { navigate_to, show_main: true, ensure_popup: true }
}

/// The script that redirects the main window's content to `url`.
pub open spec fn navigation_script_text(url: Seq<char>) -> Seq<char> {
    "window.location.replace('"@ + url + "')"@
}

/// Renders the redirect script the windowing layer evaluates in the main
/// window once the backend is reachable.
pub fn navigation_script(url: &str) -> (r: String)
    ensures
        r@ == navigation_script_text(url@),
{
    let mut s = String::from_str("window.location.replace('");
    s.append(url);
    s.append("')");
    proof {
        assert(s@ =~= navigation_script_text(url@));
    }
    s
}

/// The script that invokes the UI's close-confirmation hook: it fails when
/// the hook is absent, which the shell reads as "no UI present to confirm".
pub fn close_prompt_script() -> (r: String)
    ensures
        r@
            == "if (!window.__idleNpuCloseRequested) { throw new Error('close handler missing'); } window.__idleNpuCloseRequested();"@,
{
    String::from_str(
        "if (!window.__idleNpuCloseRequested) { throw new Error('close handler missing'); } window.__idleNpuCloseRequested();",
    )
}

} // verus!
