//! The tray controller's decisions.
//!
//! The tray icon carries a menu of two entries and reacts to two kinds of
//! event: the selection of a menu entry, reported by the entry's identifier,
//! and pointer events on the icon itself. This module says what the menu
//! holds and which [`TrayAction`] each event stands for. Carrying an action
//! out is the application's part.

use vstd::prelude::*;

use crate::text::same_text;

verus! {

/// Identifier of the window that the tray brings forward.
pub const MAIN_WINDOW: &'static str = "main";

/// Whether a left click on the icon opens the menu. It does not: the left
/// click is the shortcut that brings the main window forward, and the menu
/// is left to the platform's secondary trigger.
pub const SHOW_MENU_ON_LEFT_CLICK: bool = false;

/// Exit code of a process that ends because the user chose to quit.
pub const QUIT_EXIT_CODE: i32 = 0;

/// What the application does in answer to a tray event.
#[derive(Clone, Copy, Debug, PartialEq, Eq)]
pub enum TrayAction {
    /// End the process with this exit code.
    Exit(i32),
    /// Look up the window with this identifier, ask it to show itself and
    /// then to take the focus. A window that is gone, or that refuses either
    /// request, is no error: the action is best effort.
    ShowAndFocus { window: &'static str },
    /// Do nothing.
    Ignore,
}

/// The entries of the tray menu.
#[derive(Clone, Copy, Debug, PartialEq, Eq, Structural)]
pub enum MenuEntry {
    /// Brings the main window forward.
    Show,
    /// Ends the application.
    Quit,
}

impl MenuEntry {
    /// The characters of the entry's identifier.
    pub open spec fn spec_id(self) -> Seq<char> {
        match self {
            MenuEntry::Show => "show"@,
            MenuEntry::Quit => "quit"@,
        }
    }

    /// The characters of the entry's label.
    pub open spec fn spec_label(self) -> Seq<char> {
        match self {
            MenuEntry::Show => "Show Dex"@,
            MenuEntry::Quit => "Quit Dex"@,
        }
    }

    /// The action that the entry stands for.
    pub open spec fn spec_action(self) -> TrayAction {
        match self {
            MenuEntry::Show => TrayAction::ShowAndFocus { window: MAIN_WINDOW },
            MenuEntry::Quit => TrayAction::Exit(QUIT_EXIT_CODE),
        }
    }

    /// The entry that carries the identifier `id`, if there is one.
    pub open spec fn spec_with_id(id: Seq<char>) -> Option<MenuEntry> {
        if id == MenuEntry::Quit.spec_id() {
            Some(MenuEntry::Quit)
        } else if id == MenuEntry::Show.spec_id() {
            Some(MenuEntry::Show)
        } else {
            None
        }
    }

    /// The identifier under which a selection of this entry is reported.
    pub fn id(self) -> (id: &'static str)
        ensures
            id@ == self.spec_id(),
    {
        match self {
            MenuEntry::Show => "show",
            MenuEntry::Quit => "quit",
        }
    }

    /// The text that the menu shows for this entry.
    pub fn label(self) -> (label: &'static str)
        ensures
            label@ == self.spec_label(),
    {
        match self {
            MenuEntry::Show => "Show Dex",
            MenuEntry::Quit => "Quit Dex",
        }
    }

    /// The action taken when this entry is selected.
    pub fn action(self) -> (action: TrayAction)
        ensures
            action == self.spec_action(),
    {
        match self {
            MenuEntry::Show => TrayAction::ShowAndFocus { window: MAIN_WINDOW },
            MenuEntry::Quit => TrayAction::Exit(QUIT_EXIT_CODE),
        }
    }

    /// Finds the entry that carries the identifier `id`. The match is exact:
    /// case, surrounding blanks and every other difference count.
    pub fn with_id(id: &str) -> (found: Option<MenuEntry>)
        ensures
            found == MenuEntry::spec_with_id(id@),
    {
        if same_text(id, MenuEntry::Quit.id()) {
            Some(MenuEntry::Quit)
        } else if same_text(id, MenuEntry::Show.id()) {
            Some(MenuEntry::Show)
        } else {
            None
        }
    }
}

/// The menu as it is shown, from top to bottom.
pub open spec fn spec_menu_entries() -> Seq<MenuEntry> {
    seq![MenuEntry::Show, MenuEntry::Quit]
}

/// The entries of the tray menu in the order in which they are shown.
pub fn menu_entries() -> (entries: Vec<MenuEntry>)
    ensures
        entries@ == spec_menu_entries(),
{
    vec![MenuEntry::Show, MenuEntry::Quit]
}

/// The action for the selection of the menu entry reported as `id`.
pub open spec fn menu_action(id: Seq<char>) -> TrayAction {
    match MenuEntry::spec_with_id(id) {
        Some(entry) => entry.spec_action(),
        None => TrayAction::Ignore,
    }
}

/// Decides what to do when the menu entry with identifier `id` was selected:
/// `"quit"` ends the process with exit code 0, `"show"` brings the main
/// window forward, and any other identifier is ignored.
pub fn on_menu_event(id: &str) -> (action: TrayAction)
    ensures
        action == menu_action(id@),
        id@ != MenuEntry::Quit.spec_id() && id@ != MenuEntry::Show.spec_id() ==> action
            == TrayAction::Ignore,
{
    match MenuEntry::with_id(id) {
        Some(entry) => entry.action(),
        None => TrayAction::Ignore,
    }
}

/// The buttons of a pointer.
#[derive(Clone, Copy, Debug, PartialEq, Eq, Structural)]
pub enum MouseButton {
    Left,
    Right,
    Middle,
}

/// Where a button stands when an event is reported.
#[derive(Clone, Copy, Debug, PartialEq, Eq, Structural)]
pub enum MouseButtonState {
    /// The button was released.
    Up,
    /// The button was pressed.
    Down,
}

/// A pointer event on the tray icon, reduced to what the controller reads.
#[derive(Clone, Copy, Debug, PartialEq, Eq, Structural)]
pub enum TrayIconEvent {
    /// A button changed its state over the icon.
    Click { button: MouseButton, button_state: MouseButtonState },
    /// Any other event: a double click, or the pointer entering, moving over
    /// or leaving the icon.
    Other,
}

/// The action for a pointer event on the icon.
pub open spec fn icon_action(event: TrayIconEvent) -> TrayAction {
    if event == (TrayIconEvent::Click {
        button: MouseButton::Left,
        button_state: MouseButtonState::Up,
    }) {
        TrayAction::ShowAndFocus { window: MAIN_WINDOW }
    } else {
        TrayAction::Ignore
    }
}

/// Decides what to do on a pointer event on the icon: the release of the left
/// button brings the main window forward, everything else is ignored.
pub fn on_tray_icon_event(event: TrayIconEvent) -> (action: TrayAction)
    ensures
        action == icon_action(event),
{
    match event {
        TrayIconEvent::Click { button: MouseButton::Left, button_state: MouseButtonState::Up } => {
            TrayAction::ShowAndFocus { window: MAIN_WINDOW }
        },
        _ => TrayAction::Ignore,
    }
}

/// The two menu entries carry different identifiers.
pub proof fn menu_ids_are_distinct()
    ensures
        MenuEntry::Show.spec_id() != MenuEntry::Quit.spec_id(),
{
    reveal_strlit("show");
    reveal_strlit("quit");
    assert("show"@[0] != "quit"@[0]);
}

/// Every entry of the menu is found again by its own identifier, so selecting
/// it leads to its own action.
pub proof fn entry_is_found_by_its_id(entry: MenuEntry)
    ensures
        MenuEntry::spec_with_id(entry.spec_id()) == Some(entry),
        menu_action(entry.spec_id()) == entry.spec_action(),
{
    menu_ids_are_distinct();
}

/// An identifier that no menu entry carries leads to no action, whatever it
/// is.
pub proof fn unknown_id_is_ignored(id: Seq<char>)
    requires
        forall|entry: MenuEntry| id != #[trigger] entry.spec_id(),
    ensures
        menu_action(id) == TrayAction::Ignore,
{
}

/// Only selecting "quit" ends the process, and it does so with exit code 0;
/// no pointer event on the icon ever does.
pub proof fn only_quit_exits(id: Seq<char>, event: TrayIconEvent)
    ensures
        menu_action(id) is Exit <==> id == "quit"@,
        menu_action(id) is Exit ==> menu_action(id) == TrayAction::Exit(0),
        !(icon_action(event) is Exit),
{
}

} // verus!
