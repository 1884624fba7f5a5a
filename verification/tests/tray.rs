use dex_client::tray::{
    menu_entries, on_menu_event, on_tray_icon_event, MenuEntry, MouseButton, MouseButtonState,
    TrayAction, TrayIconEvent, MAIN_WINDOW, QUIT_EXIT_CODE, SHOW_MENU_ON_LEFT_CLICK,
};

#[test]
fn quit_entry_exits_with_code_zero() {
    assert_eq!(on_menu_event("quit"), TrayAction::Exit(0));
}

#[test]
fn show_entry_brings_main_window_forward() {
    assert_eq!(on_menu_event("show"), TrayAction::ShowAndFocus { window: "main" });
    assert_eq!(MAIN_WINDOW, "main");
}

#[test]
fn unrecognized_menu_ids_are_ignored() {
    for id in ["", "other", "Quit", "QUIT", "quit ", " quit", "quit\n", "sho", "shows", "q", "main"] {
        assert_eq!(on_menu_event(id), TrayAction::Ignore, "id {id:?}");
    }
}

#[test]
fn menu_ids_outside_ascii_are_ignored() {
    assert_eq!(on_menu_event("quít"), TrayAction::Ignore);
    assert_eq!(on_menu_event("終了"), TrayAction::Ignore);
}

#[test]
fn left_button_release_brings_main_window_forward() {
    let event = TrayIconEvent::Click {
        button: MouseButton::Left,
        button_state: MouseButtonState::Up,
    };
    assert_eq!(on_tray_icon_event(event), TrayAction::ShowAndFocus { window: "main" });
}

#[test]
fn other_pointer_events_are_ignored() {
    let pressed = TrayIconEvent::Click {
        button: MouseButton::Left,
        button_state: MouseButtonState::Down,
    };
    assert_eq!(on_tray_icon_event(pressed), TrayAction::Ignore);
    for button in [MouseButton::Right, MouseButton::Middle] {
        for button_state in [MouseButtonState::Up, MouseButtonState::Down] {
            let event = TrayIconEvent::Click { button, button_state };
            assert_eq!(on_tray_icon_event(event), TrayAction::Ignore);
        }
    }
    assert_eq!(on_tray_icon_event(TrayIconEvent::Other), TrayAction::Ignore);
}

#[test]
fn no_pointer_event_exits() {
    for button in [MouseButton::Left, MouseButton::Right, MouseButton::Middle] {
        for button_state in [MouseButtonState::Up, MouseButtonState::Down] {
            let event = TrayIconEvent::Click { button, button_state };
            assert!(!matches!(on_tray_icon_event(event), TrayAction::Exit(_)));
        }
    }
}

#[test]
fn menu_lists_show_then_quit() {
    assert_eq!(menu_entries(), vec![MenuEntry::Show, MenuEntry::Quit]);
}

#[test]
fn menu_entries_have_their_ids_and_labels() {
    assert_eq!(MenuEntry::Show.id(), "show");
    assert_eq!(MenuEntry::Show.label(), "Show Dex");
    assert_eq!(MenuEntry::Quit.id(), "quit");
    assert_eq!(MenuEntry::Quit.label(), "Quit Dex");
}

#[test]
fn menu_entries_have_their_actions() {
    assert_eq!(MenuEntry::Show.action(), TrayAction::ShowAndFocus { window: "main" });
    assert_eq!(MenuEntry::Quit.action(), TrayAction::Exit(0));
    assert_eq!(QUIT_EXIT_CODE, 0);
}

#[test]
fn every_menu_entry_is_found_by_its_id() {
    for entry in menu_entries() {
        assert_eq!(MenuEntry::with_id(entry.id()), Some(entry));
        assert_eq!(on_menu_event(entry.id()), entry.action());
    }
}

#[test]
fn unknown_id_names_no_entry() {
    assert_eq!(MenuEntry::with_id("hide"), None);
    assert_eq!(MenuEntry::with_id(""), None);
}

#[test]
fn left_click_does_not_open_the_menu() {
    assert!(!SHOW_MENU_ON_LEFT_CLICK);
}
