use youtui::actionhandler::{Action, ActionHandler, AppCallback, KeyRouter, TextHandler, WindowContext};
use youtui::config::{AppAction, Config, YoutuiKeymap};
use youtui::keymap::{KeyActionTree, Keymap};
use youtui::keys::{KeyCode, Keybind};
use youtui::logger::{Logger, LoggerAction};

#[test]
fn logger_actions_describe_themselves() {
    assert_eq!(LoggerAction::Up.context(), "Logger");
    assert_eq!(LoggerAction::ViewBrowser.describe(), "View Browser");
    assert_eq!(LoggerAction::PageUp.describe(), "Enter Page Mode, Scroll History Up");
    assert_eq!(LoggerAction::ReduceCaptured.describe(), "Reduce CAPTURED (!) Messages");
    assert_eq!(AppAction::Log(LoggerAction::ExitPageMode).describe(), "Exit Page Mode");
    assert_eq!(AppAction::Log(LoggerAction::Down).context(), "Logger");
}

#[test]
fn viewing_the_browser_asks_to_change_context() {
    let mut l = Logger::<()>::new();
    let e = l.apply_action(LoggerAction::ViewBrowser);
    assert_eq!(e.callback, Some(AppCallback::ChangeContext(WindowContext::Browser)));
    assert!(e.effect.is_no_op());
    let e = l.apply_action(LoggerAction::Up);
    assert_eq!(e.callback, None);
    assert!(e.effect.is_no_op());
    assert_eq!(l.apply_action(LoggerAction::ToggleHideFiltered).callback, None);
}

#[test]
fn logger_never_handles_text() {
    let mut l = Logger::<()>::new();
    assert!(!l.is_text_handling());
    assert_eq!(l.get_text(), "");
    assert!(!l.clear_text());
    l.replace_text("abc".to_string());
    assert_eq!(l.get_text(), "");
    let event = crossterm::event::Event::FocusGained;
    assert!(l.handle_text_event_impl(&event).is_none());
    assert!(l.try_handle_text(&event).is_none());
}

#[test]
fn logger_routes_to_the_log_keymap() {
    let mut log: Keymap<AppAction> = Keymap::new();
    log.insert(
        Keybind::new_unmodified(KeyCode::Up),
        KeyActionTree::new_key(AppAction::Log(LoggerAction::Up)),
    );
    let config = Config { keybinds: YoutuiKeymap { log } };
    let l = Logger::<()>::new();
    let active = l.get_active_keybinds(&config);
    assert_eq!(active.len(), 1);
    assert!(std::ptr::eq(active[0], &config.keybinds.log));
    assert_eq!(l.get_all_keybinds(&config).len(), 1);
}
