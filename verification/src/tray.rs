//! The tray icon: its menu and what a click on it does to the main window.

use vstd::prelude::*;

use crate::text::same_text;

verus! {

/// The id of the menu entry that quits.
pub const QUIT_ID: &'static str = "quit";

/// The label of the menu entry that quits.
pub const QUIT_LABEL: &'static str = "Speakly beenden";

/// The label of the main window.
pub const MAIN_WINDOW: &'static str = "main";

/// The exit code of a quit from the menu.
pub const QUIT_EXIT_CODE: i32 = 0;

/// What a menu event does.
pub enum MenuAction {
    Quit,
    Ignore,
}

/// The menu entry `id` quits; any other entry does nothing.
pub fn menu_action(id: &str) -> (r: MenuAction)
    ensures
        r is Quit <==> id@ == QUIT_ID@,
{
    if same_text(id, QUIT_ID) {
        MenuAction::Quit
    } else {
        MenuAction::Ignore
    }
}

/// A click on the tray icon.
pub struct TrayClick {
    /// The left button was used.
    pub left_button: bool,
    /// The button went up.
    pub released: bool,
}

/// What a tray event does to the main window.
pub enum TrayAction {
    Nothing,
    Hide,
    /// Move the window next to the tray icon, show it and focus it.
    ShowAtTray,
}

/// The answer to a tray event, as `tray_click_action` gives it.
pub open spec fn tray_response(click: Option<TrayClick>, window_visible: Option<bool>) -> TrayAction {
    match click {
        Some(c) => if c.left_button && c.released {
            match window_visible {
                Some(true) => TrayAction::Hide,
                Some(false) => TrayAction::ShowAtTray,
                None => TrayAction::Nothing,
            }
        } else {
            TrayAction::Nothing
        },
        None => TrayAction::Nothing,
    }
}

/// The answer to a tray event: a release of the left button toggles the main
/// window (`window_visible` is `None` when there is no main window, and a
/// visibility that cannot be read counts as hidden); anything else does
/// nothing.
pub fn tray_click_action(click: Option<TrayClick>, window_visible: Option<bool>) -> (r: TrayAction)
    ensures
        r == tray_response(click, window_visible),
{
    match click {
        Some(c) => if c.left_button && c.released {
            match window_visible {
                Some(true) => TrayAction::Hide,
                Some(false) => TrayAction::ShowAtTray,
                None => TrayAction::Nothing,
            }
        } else {
            TrayAction::Nothing
        },
        None => TrayAction::Nothing,
    }
}

/// Whether the window is visible after `action`, when it was `visible` before.
pub open spec fn visible_after(action: TrayAction, visible: bool) -> bool {
    match action {
        TrayAction::Nothing => visible,
        TrayAction::Hide => false,
        TrayAction::ShowAtTray => true,
    }
}

/// Only a release of the left button on the tray icon, with a main window,
/// does anything: any other tray event (a hover, a press, another button) or a
/// missing window leaves everything as it is. The window is hidden only when it
/// was visible and shown only when it was hidden.
pub proof fn lemma_only_left_release_acts(click: Option<TrayClick>, window_visible: Option<bool>)
    ensures
        !(tray_response(click, window_visible) is Nothing) <==> (click matches Some(c)
            && c.left_button && c.released && window_visible is Some),
        tray_response(click, window_visible) is Hide ==> window_visible == Some(true),
        tray_response(click, window_visible) is ShowAtTray ==> window_visible == Some(false),
        forall|v: bool|
            #![trigger visible_after(tray_response(None, Some(v)), v)]
            visible_after(tray_response(None, Some(v)), v) == v,
{
}

/// A release of the left button on the tray icon toggles the main window: a
/// visible window is hidden and a hidden one shown, so two such clicks bring
/// it back to where it was; any other tray event leaves it as it is.
pub proof fn lemma_left_release_toggles(click: TrayClick, visible: bool)
    ensures
        click.left_button && click.released ==> visible_after(
            tray_response(Some(click), Some(visible)),
            visible,
        ) == !visible,
        click.left_button && click.released ==> visible_after(
            tray_response(Some(click), Some(!visible)),
            visible_after(tray_response(Some(click), Some(visible)), visible),
        ) == visible,
        !(click.left_button && click.released) ==> visible_after(
            tray_response(Some(click), Some(visible)),
            visible,
        ) == visible,
{
}

} // verus!
