use overlay_window::app_windows::{
    hides_on_close, initial_window_position, initial_window_size, window_chrome, WindowChrome,
    CHAT_WINDOW, MAIN_WINDOW, SETTINGS_WINDOW,
};
use overlay_window::behavior::{CURSOR_STATE_EVENT, HOVER_FADE_EVENT};
use overlay_window::manual_drag::TICK_MILLIS;
use overlay_window::geometry::{ScreenPoint, WindowSize};
use overlay_window::tray::{menu_action, toggle_visibility, MenuAction, VisibilityChange};

#[test]
fn menu_entries_map_to_their_actions() {
    assert_eq!(menu_action("toggle_visibility"), Some(MenuAction::ToggleVisibility));
    assert_eq!(menu_action("open_chat"), Some(MenuAction::OpenChat));
    assert_eq!(menu_action("open_settings"), Some(MenuAction::OpenSettings));
    assert_eq!(menu_action("toggle_click_through"), Some(MenuAction::ToggleClickThrough));
    assert_eq!(menu_action("toggle_drag_mode"), Some(MenuAction::ToggleDragMode));
    assert_eq!(menu_action("quit"), Some(MenuAction::Quit));
}

#[test]
fn unknown_menu_entries_map_to_nothing() {
    assert_eq!(menu_action(""), None);
    assert_eq!(menu_action("Quit"), None);
    assert_eq!(menu_action("quit "), None);
    assert_eq!(menu_action("open"), None);
}

#[test]
fn visibility_toggle_hides_unless_hidden() {
    assert_eq!(toggle_visibility(Some(true)), VisibilityChange::Hide);
    assert_eq!(toggle_visibility(Some(false)), VisibilityChange::ShowAndFocus);
    assert_eq!(toggle_visibility(None), VisibilityChange::Hide);
}

#[test]
fn window_chrome_follows_the_label() {
    assert_eq!(
        window_chrome("settings"),
        WindowChrome {
            resizable: true,
            transparent: true,
            decorations: false,
            shadow: Some(false),
            always_on_top: None,
            skip_taskbar: false,
        }
    );
    assert_eq!(
        window_chrome("chat"),
        WindowChrome {
            resizable: true,
            transparent: true,
            decorations: false,
            shadow: Some(false),
            always_on_top: Some(true),
            skip_taskbar: true,
        }
    );
    let plain = WindowChrome {
        resizable: true,
        transparent: false,
        decorations: true,
        shadow: None,
        always_on_top: None,
        skip_taskbar: false,
    };
    assert_eq!(window_chrome("main"), plain);
    assert_eq!(window_chrome(""), plain);
    assert_eq!(window_chrome("Chat"), plain);
}

#[test]
fn main_and_settings_windows_hide_on_close() {
    assert!(hides_on_close("main"));
    assert!(hides_on_close("settings"));
    assert!(!hides_on_close("chat"));
    assert!(!hides_on_close(""));
    assert!(!hides_on_close("Main"));
}

#[test]
fn initial_window_sits_in_the_bottom_right_corner() {
    assert_eq!(initial_window_size(), WindowSize { width: 640, height: 720 });
    assert_eq!(
        initial_window_position(WindowSize { width: 1920, height: 1080 }),
        Some(ScreenPoint { x: 1256, y: 280 })
    );
    assert_eq!(
        initial_window_position(WindowSize { width: 664, height: 800 }),
        Some(ScreenPoint { x: 0, y: 0 })
    );
    assert_eq!(
        initial_window_position(WindowSize { width: 665, height: 801 }),
        Some(ScreenPoint { x: 1, y: 1 })
    );
}

#[test]
fn initial_window_on_a_small_monitor_sits_at_the_origin() {
    assert_eq!(initial_window_position(WindowSize { width: 0, height: 0 }), Some(ScreenPoint { x: 0, y: 0 }));
    assert_eq!(
        initial_window_position(WindowSize { width: 600, height: 900 }),
        Some(ScreenPoint { x: 0, y: 100 })
    );
}

#[test]
fn initial_window_beyond_the_coordinates_is_not_placed() {
    let limit = i32::MAX as u32;
    assert_eq!(
        initial_window_position(WindowSize { width: limit + 664, height: limit + 800 }),
        Some(ScreenPoint { x: i32::MAX, y: i32::MAX })
    );
    assert_eq!(initial_window_position(WindowSize { width: limit + 665, height: 1080 }), None);
    assert_eq!(initial_window_position(WindowSize { width: 1920, height: limit + 801 }), None);
}

#[test]
fn window_labels_select_their_chrome() {
    assert!(hides_on_close(MAIN_WINDOW));
    assert!(hides_on_close(SETTINGS_WINDOW));
    assert!(!hides_on_close(CHAT_WINDOW));
    assert_eq!(window_chrome(CHAT_WINDOW).always_on_top, Some(true));
    assert_eq!(window_chrome(SETTINGS_WINDOW).always_on_top, None);
    assert!(window_chrome(MAIN_WINDOW).decorations);
}

#[test]
fn poller_ticks_about_once_a_frame() {
    assert_eq!(TICK_MILLIS, 16);
}

#[test]
fn notifications_have_distinct_names() {
    assert_eq!(HOVER_FADE_EVENT, "whalewhisper:desktop-hover");
    assert_eq!(CURSOR_STATE_EVENT, "whalewhisper:desktop-cursor");
}
