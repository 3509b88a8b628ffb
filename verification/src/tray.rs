//! The tray interaction controller: clicks on the tray icon and choices from
//! its menu.

use vstd::prelude::*;
use vstd::string::*;
use crate::shell::Action;

verus! {

/// The mouse button behind a tray-icon event.
#[derive(Clone, Copy, Debug, PartialEq, Eq, Structural)]
pub enum MouseButton {
    Left,
    Right,
    Middle,
}

/// Whether the button went down or came back up.
#[derive(Clone, Copy, Debug, PartialEq, Eq, Structural)]
pub enum MouseButtonState {
    Up,
    Down,
}

/// An event on the tray icon, with what the controller reads of it.
#[derive(Clone, Copy, Debug, PartialEq, Eq, Structural)]
pub enum TrayIconEvent {
    Click { button: MouseButton, button_state: MouseButtonState },
    DoubleClick { button: MouseButton },
    Enter,
    Move,
    Leave,
    /// Any kind that the host knows and this crate does not.
    Other,
}

impl TrayIconEvent {
    /// The event is the release of the left button: a finished click.
    pub open spec fn primary_click(self) -> bool {
        self == (TrayIconEvent::Click {
            button: MouseButton::Left,
            button_state: MouseButtonState::Up,
        })
    }

    /// Whether the event is a finished click with the left button, the one
    /// event on the icon that is acted on.
    pub fn is_primary_click(&self) -> (primary: bool)
        ensures
            primary == self.primary_click(),
    {
        match self {
            TrayIconEvent::Click {
                button: MouseButton::Left,
                button_state: MouseButtonState::Up,
            } => true,
            _ => false,
        }
    }
}

/// The actions that flip the window, given what the host said of its
/// visibility: `None` is a query that failed, and counts as not visible.
pub open spec fn toggle_actions(visibility: Option<bool>) -> Seq<Action> {
    if visibility == Some(true) {
        seq![Action::Hide]
    } else {
        seq![Action::Show, Action::SetFocus]
    }
}

/// Hides a window that is known to be visible; shows any other, and asks for
/// focus on it.
pub fn toggle_window(visibility: Option<bool>) -> (actions: Vec<Action>)
    ensures
        actions@ == toggle_actions(visibility),
{
    match visibility {
        Some(true) => vec![Action::Hide],
        _ => vec![Action::Show, Action::SetFocus],
    }
}

/// What the controller answers to an event on the tray icon: a primary click
/// flips the window, nothing else is acted on.
pub open spec fn tray_icon_actions(event: TrayIconEvent, visibility: Option<bool>) -> Seq<Action> {
    if event.primary_click() {
        toggle_actions(visibility)
    } else {
        seq![]
    }
}

/// Handles an event on the tray icon. `visibility` is the host's answer to the
/// visibility query, `None` where the query failed; it is read for a primary
/// click only.
pub fn on_tray_icon_event(event: &TrayIconEvent, visibility: Option<bool>) -> (actions: Vec<Action>)
    ensures
        actions@ == tray_icon_actions(*event, visibility),
{
    if event.is_primary_click() {
        toggle_window(visibility)
    } else {
        Vec::new()
    }
}

/// What the controller answers to the choice of the menu item `id`.
pub open spec fn menu_actions(id: Seq<char>) -> Seq<Action> {
    if id == "show"@ {
        seq![Action::Show, Action::SetFocus]
    } else if id == "hide"@ {
        seq![Action::Hide]
    } else if id == "quit"@ {
        seq![Action::Exit { code: 0 }]
    } else {
        seq![]
    }
}

/// Whether `id` is the identifier `name`.
fn is_item(id: &str, name: &str) -> (same: bool)
    ensures
        same == (id@ == name@),
{
    id.to_owned() == name.to_owned()
}

/// Handles the choice of the menu item `id`: "show" shows the window and asks
/// for focus, "hide" hides it, "quit" ends the process with exit code 0, and
/// any other identifier is not acted on.
pub fn on_menu_event(id: &str) -> (actions: Vec<Action>)
    ensures
        actions@ == menu_actions(id@),
{
    if is_item(id, "show") {
        vec![Action::Show, Action::SetFocus]
    } else if is_item(id, "hide") {
        vec![Action::Hide]
    } else if is_item(id, "quit") {
        vec![Action::Exit { code: 0 }]
    } else {
        Vec::new()
    }
}

/// One item of the tray menu.
#[derive(Clone, Debug)]
pub struct MenuEntry {
    /// The identifier that a choice of the item is reported under.
    pub id: String,
    /// The text shown to the user.
    pub label: String,
    pub enabled: bool,
}

/// A menu item as plain values.
pub struct MenuEntryView {
    pub id: Seq<char>,
    pub label: Seq<char>,
    pub enabled: bool,
}

impl View for MenuEntry {
    type V = MenuEntryView;

    open spec fn view(&self) -> MenuEntryView {
        MenuEntryView { id: self.id@, label: self.label@, enabled: self.enabled }
    }
}

/// What the tray icon is built from, the icon image aside: a flat menu and a
/// tooltip.
#[derive(Clone, Debug)]
pub struct TraySetup {
    pub menu: Vec<MenuEntry>,
    pub tooltip: String,
}

impl TraySetup {
    /// The menu's items as plain values, from top to bottom.
    pub open spec fn entries(self) -> Seq<MenuEntryView> {
        self.menu@.map_values(|entry: MenuEntry| entry@)
    }
}

/// The tray menu: show, hide and quit, all enabled.
pub open spec fn tray_menu() -> Seq<MenuEntryView> {
    seq![
        MenuEntryView { id: "show"@, label: "显示"@, enabled: true },
        MenuEntryView { id: "hide"@, label: "隐藏"@, enabled: true },
        MenuEntryView { id: "quit"@, label: "退出"@, enabled: true },
    ]
}

/// The tooltip of the tray icon.
pub open spec fn tray_tooltip() -> Seq<char> {
    "子弹之刃"@
}

/// An enabled menu item.
fn entry(id: &str, label: &str) -> (entry: MenuEntry)
    ensures
        entry@ == (MenuEntryView { id: id@, label: label@, enabled: true }),
{
    MenuEntry { id: id.to_owned(), label: label.to_owned(), enabled: true }
}

/// Lays out the tray: the menu of [`tray_menu`] under the tooltip of
/// [`tray_tooltip`]. The host builds the icon from it and routes its events to
/// [`on_tray_icon_event`] and [`on_menu_event`].
pub fn setup_tray() -> (tray: TraySetup)
    ensures
        tray.entries() == tray_menu(),
        tray.tooltip@ == tray_tooltip(),
{
    let menu = vec![entry("show", "显示"), entry("hide", "隐藏"), entry("quit", "退出")];
    TraySetup { menu, tooltip: "子弹之刃".to_owned() }
}

} // verus!
