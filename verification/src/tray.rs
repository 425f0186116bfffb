//! The tray entry point: runtime-updatable labels, the frameless popup
//! window's debounced visibility state, where the popup opens relative to
//! the click, and what each tray click means.

use vstd::prelude::*;
use vstd::string::*;
use crate::endpoint::{tray_page_url, tray_page_url_text};

verus! {

/// Width of the popup window, in pixels.
pub const TRAY_MENU_WIDTH: i64 = 210;

/// Height of the popup window, in pixels.
pub const TRAY_MENU_HEIGHT: i64 = 100;

/// Gap between the popup's lower edge and the click point, in pixels.
pub const TRAY_MENU_GAP: i64 = 8;

/// A focus loss this soon after showing the popup is ignored, so the click
/// that opened the popup cannot hide it again. In milliseconds.
pub const POPUP_DEBOUNCE_MS: u64 = 200;

/// The two texts the tray surface renders. Mutable at runtime so the UI can
/// switch language; resets to the defaults each run.
pub struct TrayLabels {
    /// The entry that brings the main window to the front.
    pub show_label: String,
    /// The entry that terminates the application.
    pub quit_label: String,
}

impl TrayLabels {
    /// The default labels of a fresh run.
    pub fn new() -> (l: TrayLabels)
        ensures
            l.show_label@ == "Show"@,
            l.quit_label@ == "Quit"@,
    {
        TrayLabels { show_label: String::from_str("Show"), quit_label: String::from_str("Quit") }
    }

    /// Replaces both labels, as the runtime language-switch command does.
    pub fn update(&mut self, show_label: String, quit_label: String)
        ensures
            final(self).show_label@ == show_label@,
            final(self).quit_label@ == quit_label@,
    {
        self.show_label = show_label;
        self.quit_label = quit_label;
    }
}

/// When the popup was last shown, if it is visible at all. Cleared on every
/// path that hides the popup, so a set timestamp always belongs to a visible
/// popup.
pub struct TrayPopupState {
    shown_at: Option<u64>,
}

impl TrayPopupState {
    /// The instant the visible popup was shown, in milliseconds of a
    /// monotonic clock; nothing when the popup is hidden.
    pub closed spec fn shown_at(&self) -> Option<u64> {
        self.shown_at
    }

    /// The popup starts hidden.
    pub fn new() -> (s: TrayPopupState)
        ensures
            s.shown_at() is None,
    {
        TrayPopupState { shown_at: None }
    }

    /// Records that the popup became visible at `now`. Called only once the
    /// windowing layer's show succeeded, so the timestamp never outlives or
    /// precedes a visible popup.
    pub fn record_shown(&mut self, now: u64)
        ensures
            final(self).shown_at() == Some(now),
    {
        self.shown_at = Some(now);
    }

    /// Records that the popup was hidden, through whichever path.
    pub fn record_hidden(&mut self)
        ensures
            final(self).shown_at() is None,
    {
        self.shown_at = None;
    }

    /// Whether a focus loss at `now` hides the popup: yes, unless it comes
    /// within the debounce grace period right after the popup was shown.
    /// A popup with no recorded timestamp is hidden defensively.
    pub fn should_hide_on_focus_loss(&self, now: u64) -> (r: bool)
        requires
            self.shown_at() is Some ==> self.shown_at()->0 <= now,
        ensures
            r == (match self.shown_at() {
                Some(t) => now - t >= POPUP_DEBOUNCE_MS,
                None => true,
            }),
    {
        match self.shown_at {
            Some(t) => now - t >= POPUP_DEBOUNCE_MS,
            None => true,
        }
    }
}

/// Where the popup opens for a click at `(click_x, click_y)`: centered above
/// the click point with a small gap, clamped so it never renders at negative
/// screen coordinates.
pub open spec fn popup_origin(click_x: int, click_y: int) -> (int, int) {
    let x = click_x - TRAY_MENU_WIDTH / 2;
    let y = click_y - TRAY_MENU_HEIGHT - TRAY_MENU_GAP;
    ((if x < 0 {
        0int
    } else {
        x
    }), (if y < 0 {
        0int
    } else {
        y
    }))
}

/// Computes the popup's top-left corner for a click point.
pub fn popup_position(click_x: i64, click_y: i64) -> (p: (i64, i64))
    requires
        i64::MIN + TRAY_MENU_WIDTH <= click_x,
        i64::MIN + TRAY_MENU_HEIGHT + TRAY_MENU_GAP <= click_y,
    ensures
        (p.0 as int, p.1 as int) == popup_origin(click_x as int, click_y as int),
        p.0 >= 0,
        p.1 >= 0,
{
    let mut x = click_x - TRAY_MENU_WIDTH / 2;
    let mut y = click_y - TRAY_MENU_HEIGHT - TRAY_MENU_GAP;
    if x < 0 {
        x = 0;
    }
    if y < 0 {
        y = 0;
    }
    (x, y)
}

/// How the tray icon itself is set up.
pub struct TrayIconConfig {
    /// The icon's identifier.
    pub id: String,
    /// The hover tooltip.
    pub tooltip: String,
    /// A primary click focuses the main window instead of opening a menu.
    pub show_menu_on_left_click: bool,
}

/// The tray icon the shell registers: identified, with a tooltip, and with
/// primary clicks reserved for focusing the main window.
pub fn tray_icon_config() -> (c: TrayIconConfig)
    ensures
        c.id@ == "main"@,
        c.tooltip@ == "Idle NPU Waker"@,
        !c.show_menu_on_left_click,
{
    TrayIconConfig {
        id: String::from_str("main"),
        tooltip: String::from_str("Idle NPU Waker"),
        show_menu_on_left_click: false,
    }
}

/// The page the popup renders: the backend's tray page when its URL could
/// be parsed by the windowing layer, otherwise a bundled local page.
#[derive(PartialEq, Eq, Debug)]
pub enum TrayPage {
    /// The tray page served by the backend.
    External {
        /// The page's full URL.
        url: String,
    },
    /// The local fallback page shipped with the shell.
    Bundled {
        /// The bundled page's path.
        path: String,
    },
}

/// Chooses the popup's page from the outcome of parsing the backend's tray
/// URL: the external page when the URL parsed, the bundled fallback
/// otherwise — never an error.
pub fn tray_menu_url(url_parses: bool, ui_host: &str, port: u16) -> (p: TrayPage)
    ensures
        url_parses ==> (p matches TrayPage::External { url } && url@ == tray_page_url_text(
            ui_host@,
            port,
        )),
        !url_parses ==> (p matches TrayPage::Bundled { path } && path@ == "tray.html"@),
{
    if url_parses {
        TrayPage::External { url: tray_page_url(ui_host, port) }
    } else {
        TrayPage::Bundled { path: String::from_str("tray.html") }
    }
}

/// How the popup window is built, fully decided: a small frameless
/// always-on-top surface, created hidden, pointed at the backend's tray
/// page or its bundled fallback.
pub struct PopupWindowConfig {
    /// The window's label, distinct from the main window's.
    pub label: String,
    /// The window title.
    pub title: String,
    /// Width in pixels.
    pub width: i64,
    /// Height in pixels.
    pub height: i64,
    /// The popup cannot be resized.
    pub resizable: bool,
    /// The popup never goes fullscreen.
    pub fullscreen: bool,
    /// The popup is created hidden and shown only on a secondary click.
    pub visible: bool,
    /// No frame or title bar.
    pub decorations: bool,
    /// A transparent, shadowless surface.
    pub transparent: bool,
    /// See `transparent`.
    pub shadow: bool,
    /// The popup stays above other windows while open.
    pub always_on_top: bool,
    /// The popup never appears in the taskbar.
    pub skip_taskbar: bool,
    /// The page the popup renders: the backend's tray page, or the bundled
    /// fallback when its URL did not parse.
    pub page: TrayPage,
}

/// Decides the popup window's construction for the backend at
/// `ui_host:port`; `url_parses` is the windowing layer's verdict on the
/// tray page URL.
pub fn tray_window_config(ui_host: &str, port: u16, url_parses: bool) -> (c: PopupWindowConfig)
    ensures
        c.label@ == "tray-menu"@,
        c.title@ == "Tray Menu"@,
        c.width == TRAY_MENU_WIDTH,
        c.height == TRAY_MENU_HEIGHT,
        !c.resizable,
        !c.fullscreen,
        !c.visible,
        !c.decorations,
        c.transparent,
        !c.shadow,
        c.always_on_top,
        c.skip_taskbar,
        url_parses ==> (c.page matches TrayPage::External { url } && url@ == tray_page_url_text(
            ui_host@,
            port,
        )),
        !url_parses ==> (c.page matches TrayPage::Bundled { path } && path@ == "tray.html"@),
{
    PopupWindowConfig {
        label: String::from_str("tray-menu"),
        title: String::from_str("Tray Menu"),
        width: TRAY_MENU_WIDTH,
        height: TRAY_MENU_HEIGHT,
        resizable: false,
        fullscreen: false,
        visible: false,
        decorations: false,
        transparent: true,
        shadow: false,
        always_on_top: true,
        skip_taskbar: true,
        page: tray_menu_url(url_parses, ui_host, port),
    }
}

/// The native-menu variant's two entries, rebuilt from the current labels:
/// the show entry, then the quit entry.
pub fn native_menu_items(labels: &TrayLabels) -> (v: Vec<String>)
    ensures
        v@.len() == 2,
        v@[0]@ == labels.show_label@,
        v@[1]@ == labels.quit_label@,
{
    let mut v: Vec<String> = Vec::new();
    v.push(labels.show_label.clone());
    v.push(labels.quit_label.clone());
    v
}

/// Everything opening the popup asks of the windowing layer: where to put
/// the window and which labels it renders.
pub struct PopupPlan {
    /// Horizontal position of the popup's top-left corner; never negative.
    pub x: i64,
    /// Vertical position of the popup's top-left corner; never negative.
    pub y: i64,
    /// The show entry's current text.
    pub show_label: String,
    /// The quit entry's current text.
    pub quit_label: String,
}

/// Opens the popup for a secondary click at `(click_x, click_y)`: places
/// the popup above the click point clamped to the screen and snapshots the
/// labels it renders. Once the windowing layer has actually shown the
/// popup, the caller records the instant with
/// [`TrayPopupState::record_shown`] — and with [`record_hidden`] on any
/// path that leaves it hidden — so a set timestamp always belongs to a
/// visible popup.
///
/// [`record_hidden`]: TrayPopupState::record_hidden
pub fn show_tray_menu(labels: &TrayLabels, click_x: i64, click_y: i64) -> (p: PopupPlan)
    requires
        i64::MIN + TRAY_MENU_WIDTH <= click_x,
        i64::MIN + TRAY_MENU_HEIGHT + TRAY_MENU_GAP <= click_y,
    ensures
        (p.x as int, p.y as int) == popup_origin(click_x as int, click_y as int),
        p.x >= 0,
        p.y >= 0,
        p.show_label@ == labels.show_label@,
        p.quit_label@ == labels.quit_label@,
{
    let (x, y) = popup_position(click_x, click_y);
    PopupPlan {
        x,
        y,
        show_label: labels.show_label.clone(),
        quit_label: labels.quit_label.clone(),
    }
}

/// A click on the tray icon, as the windowing layer reports it.
#[derive(PartialEq, Eq, Structural, Debug)]
pub enum TrayEvent {
    /// A released primary-button click.
    LeftClick,
    /// A primary-button double click.
    LeftDoubleClick,
    /// A released secondary-button click at a screen position.
    RightClick { x: i64, y: i64 },
    /// Anything else the tray reports (presses, moves, other buttons).
    Other,
}

/// What the shell does with a tray click.
#[derive(PartialEq, Eq, Structural, Debug)]
pub enum TrayAction {
    /// Hide any open popup, then un-minimize, show and focus the main
    /// window.
    FocusMain,
    /// Show the popup for a click at this position.
    OpenPopup { x: i64, y: i64 },
    /// Nothing.
    Ignore,
}

/// The action each tray event maps to.
pub open spec fn tray_dispatch(e: TrayEvent) -> TrayAction {
    match e {
        TrayEvent::LeftClick => TrayAction::FocusMain,
        TrayEvent::LeftDoubleClick => TrayAction::FocusMain,
        TrayEvent::RightClick { x, y } => TrayAction::OpenPopup { x, y },
        TrayEvent::Other => TrayAction::Ignore,
    }
}

/// Dispatches one tray click: any primary click brings the main window to
/// the front, a secondary click opens the popup at the click point, and
/// everything else is ignored.
pub fn handle_tray_event(e: &TrayEvent) -> (a: TrayAction)
    ensures
        a == tray_dispatch(*e),
{
    match e {
        TrayEvent::LeftClick => TrayAction::FocusMain,
        TrayEvent::LeftDoubleClick => TrayAction::FocusMain,
        TrayEvent::RightClick { x, y } => TrayAction::OpenPopup { x: *x, y: *y },
        TrayEvent::Other => TrayAction::Ignore,
    }
}

} // verus!
