use tray_shell::commands::greet;
use tray_shell::setup::{on_window_event, WindowEvent};
use tray_shell::shell::Action;
use tray_shell::tray::{
    on_menu_event, on_tray_icon_event, setup_tray, toggle_window, MouseButton, MouseButtonState,
    TrayIconEvent,
};

fn left_click() -> TrayIconEvent {
    TrayIconEvent::Click { button: MouseButton::Left, button_state: MouseButtonState::Up }
}

#[test]
fn greet_names_the_caller() {
    assert_eq!(greet("World"), "Hello, World! You've been greeted from Rust!");
}

#[test]
fn greet_takes_an_empty_name() {
    assert_eq!(greet(""), "Hello, ! You've been greeted from Rust!");
}

#[test]
fn greet_keeps_the_name_as_written() {
    assert_eq!(greet("子弹 {}"), "Hello, 子弹 {}! You've been greeted from Rust!");
}

#[test]
fn close_request_is_suppressed_and_hides() {
    assert_eq!(
        on_window_event(&WindowEvent::CloseRequested),
        vec![Action::PreventClose, Action::Hide]
    );
}

#[test]
fn other_window_events_are_not_acted_on() {
    let others = [
        WindowEvent::Resized,
        WindowEvent::Moved,
        WindowEvent::Destroyed,
        WindowEvent::Focused,
        WindowEvent::ScaleFactorChanged,
        WindowEvent::DragDrop,
        WindowEvent::ThemeChanged,
        WindowEvent::Other,
    ];
    for event in others.iter() {
        assert_eq!(on_window_event(event), vec![]);
    }
}

#[test]
fn primary_click_is_the_left_button_released() {
    assert!(left_click().is_primary_click());
    let others = [
        TrayIconEvent::Click { button: MouseButton::Left, button_state: MouseButtonState::Down },
        TrayIconEvent::Click { button: MouseButton::Right, button_state: MouseButtonState::Up },
        TrayIconEvent::Click { button: MouseButton::Middle, button_state: MouseButtonState::Up },
        TrayIconEvent::DoubleClick { button: MouseButton::Left },
        TrayIconEvent::Enter,
        TrayIconEvent::Move,
        TrayIconEvent::Leave,
        TrayIconEvent::Other,
    ];
    for event in others.iter() {
        assert!(!event.is_primary_click());
    }
}

#[test]
fn click_on_visible_window_hides_without_focus() {
    let actions = on_tray_icon_event(&left_click(), Some(true));
    assert_eq!(actions, vec![Action::Hide]);
    assert!(!actions.contains(&Action::SetFocus));
}

#[test]
fn click_on_hidden_window_shows_then_focuses() {
    assert_eq!(
        on_tray_icon_event(&left_click(), Some(false)),
        vec![Action::Show, Action::SetFocus]
    );
}

#[test]
fn click_with_failed_query_shows_then_focuses() {
    assert_eq!(on_tray_icon_event(&left_click(), None), vec![Action::Show, Action::SetFocus]);
}

#[test]
fn toggle_window_follows_the_visibility() {
    assert_eq!(toggle_window(Some(true)), vec![Action::Hide]);
    assert_eq!(toggle_window(Some(false)), vec![Action::Show, Action::SetFocus]);
    assert_eq!(toggle_window(None), vec![Action::Show, Action::SetFocus]);
}

#[test]
fn other_tray_events_are_not_acted_on() {
    let others = [
        TrayIconEvent::Click { button: MouseButton::Left, button_state: MouseButtonState::Down },
        TrayIconEvent::Click { button: MouseButton::Right, button_state: MouseButtonState::Up },
        TrayIconEvent::Click { button: MouseButton::Right, button_state: MouseButtonState::Down },
        TrayIconEvent::Click { button: MouseButton::Middle, button_state: MouseButtonState::Up },
        TrayIconEvent::DoubleClick { button: MouseButton::Left },
        TrayIconEvent::Enter,
        TrayIconEvent::Move,
        TrayIconEvent::Leave,
        TrayIconEvent::Other,
    ];
    for event in others.iter() {
        for visibility in [Some(true), Some(false), None] {
            assert_eq!(on_tray_icon_event(event, visibility), vec![]);
        }
    }
}

#[test]
fn menu_show_shows_then_focuses() {
    assert_eq!(on_menu_event("show"), vec![Action::Show, Action::SetFocus]);
}

#[test]
fn menu_hide_hides() {
    assert_eq!(on_menu_event("hide"), vec![Action::Hide]);
}

#[test]
fn menu_quit_exits_with_code_zero() {
    assert_eq!(on_menu_event("quit"), vec![Action::Exit { code: 0 }]);
}

#[test]
fn unknown_menu_ids_are_not_acted_on() {
    for id in ["", "Quit", "SHOW", "show ", " hide", "qui", "quit2", "exit", "显示"] {
        assert_eq!(on_menu_event(id), vec![]);
    }
}

#[test]
fn every_show_is_followed_by_focus() {
    let mut answers = vec![
        on_window_event(&WindowEvent::CloseRequested),
        on_menu_event("show"),
        on_menu_event("hide"),
        on_menu_event("quit"),
    ];
    for visibility in [Some(true), Some(false), None] {
        answers.push(on_tray_icon_event(&left_click(), visibility));
    }
    for actions in answers.iter() {
        for (at, action) in actions.iter().enumerate() {
            if *action == Action::Show {
                assert_eq!(actions.get(at + 1), Some(&Action::SetFocus));
            }
        }
    }
}

#[test]
fn tray_has_three_enabled_items_and_a_tooltip() {
    let tray = setup_tray();
    let items: Vec<(&str, &str, bool)> = tray
        .menu
        .iter()
        .map(|entry| (entry.id.as_str(), entry.label.as_str(), entry.enabled))
        .collect();
    assert_eq!(
        items,
        vec![("show", "显示", true), ("hide", "隐藏", true), ("quit", "退出", true)]
    );
    assert_eq!(tray.tooltip, "子弹之刃");
}

#[test]
fn every_tray_item_is_acted_on() {
    for entry in setup_tray().menu.iter() {
        assert!(!on_menu_event(&entry.id).is_empty());
    }
}
