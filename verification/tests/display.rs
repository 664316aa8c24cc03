use youtui::actionhandler::{
    get_global_keybinds_as_readable_iter, get_visible_keybinds_as_readable_iter,
};
use youtui::keyaction::{DisplayableKeyAction, KeyAction, KeyActionVisibility};
use youtui::keymap::{KeyActionTree, Keymap};
use youtui::keys::{KeyCode, KeyModifiers, Keybind, ALT_BIT, CONTROL_BIT, SHIFT_BIT};

use youtui::config::AppAction;
use youtui::logger::LoggerAction;

type Act = AppAction;
const PLAY: AppAction = AppAction::Log(LoggerAction::Up);
const QUIT: AppAction = AppAction::Log(LoggerAction::ViewBrowser);

fn with(code: KeyCode, bits: u8) -> Keybind {
    Keybind { code, modifiers: KeyModifiers { bits } }
}

fn visible(action: Act, visibility: KeyActionVisibility) -> KeyActionTree<Act> {
    KeyActionTree::Key(KeyAction { action, visibility })
}

#[test]
fn keybind_text() {
    assert_eq!(Keybind::new_unmodified(KeyCode::Enter).to_string(), "Enter");
    assert_eq!(Keybind::new_unmodified(KeyCode::F(10)).to_string(), "F10");
    assert_eq!(Keybind::new_unmodified(KeyCode::F(5)).to_string(), "F5");
    assert_eq!(Keybind::new_unmodified(KeyCode::F(255)).to_string(), "F255");
    assert_eq!(Keybind::new_unmodified(KeyCode::Char(' ')).to_string(), "Space");
    assert_eq!(Keybind::new_unmodified(KeyCode::Char('x')).to_string(), "x");
    assert_eq!(with(KeyCode::Char('c'), CONTROL_BIT).to_string(), "C-c");
    assert_eq!(with(KeyCode::Left, CONTROL_BIT | ALT_BIT | SHIFT_BIT).to_string(), "C-A-S-Left");
    assert_eq!(with(KeyCode::PageDown, ALT_BIT).to_string(), "A-PageDown");
}

#[test]
fn key_binding_is_displayed_with_its_action() {
    let kb = with(KeyCode::Char('p'), CONTROL_BIT);
    let d = DisplayableKeyAction::from_keybind_and_action_tree(&kb, &KeyActionTree::new_key(PLAY));
    assert_eq!(d.keybinds, "C-p");
    assert_eq!(d.context, "Logger");
    assert_eq!(d.description, "Up - Selector");
}

#[test]
fn mode_is_displayed_with_its_name_and_first_context() {
    let kb = Keybind::new_unmodified(KeyCode::Enter);
    let mode = KeyActionTree::new_mode(
        vec![
            (Keybind::new_unmodified(KeyCode::Char('q')), KeyActionTree::new_key(QUIT)),
            (Keybind::new_unmodified(KeyCode::Char('p')), KeyActionTree::new_key(PLAY)),
        ],
        "Play".to_string(),
    );
    let d = DisplayableKeyAction::from_keybind_and_action_tree(&kb, &mode);
    assert_eq!(d.keybinds, "Enter");
    assert_eq!(d.context, "Logger");
    assert_eq!(d.description, "Play");
}

#[test]
fn unnamed_empty_mode_is_displayed_by_its_keybind() {
    let kb = Keybind::new_unmodified(KeyCode::Tab);
    let mode: KeyActionTree<Act> = KeyActionTree::Mode { keys: Keymap::new(), name: None };
    let d = DisplayableKeyAction::from_keybind_and_action_tree(&kb, &mode);
    assert_eq!(d.keybinds, "Tab");
    assert_eq!(d.context, "");
    assert_eq!(d.description, "Tab");
}

fn sample_keymaps() -> (Keymap<Act>, Keymap<Act>) {
    let first = Keymap::from_pairs(vec![
        (Keybind::new_unmodified(KeyCode::Char('p')), visible(PLAY, KeyActionVisibility::Standard)),
        (Keybind::new_unmodified(KeyCode::Char('h')), visible(PLAY, KeyActionVisibility::Hidden)),
    ]);
    let second = Keymap::from_pairs(vec![
        (with(KeyCode::Char('c'), CONTROL_BIT), visible(QUIT, KeyActionVisibility::Global)),
    ]);
    (first, second)
}

#[test]
fn visible_listing_leaves_out_hidden_bindings() {
    let (first, second) = sample_keymaps();
    let v = get_visible_keybinds_as_readable_iter(&[&first, &second]);
    let keys: Vec<&str> = v.iter().map(|d| d.keybinds.as_str()).collect();
    assert_eq!(keys, vec!["p", "C-c"]);
    assert_eq!(v[1].context, "Logger");
    assert_eq!(v[1].description, "View Browser");
}

#[test]
fn global_listing_holds_only_global_bindings() {
    let (first, second) = sample_keymaps();
    let v = get_global_keybinds_as_readable_iter(&[&first, &second]);
    assert_eq!(v.len(), 1);
    assert_eq!(v[0].keybinds, "C-c");
    assert!(get_global_keybinds_as_readable_iter(&[&first]).is_empty());
}

#[test]
fn every_global_binding_is_also_listed_as_visible() {
    let (first, second) = sample_keymaps();
    let global = get_global_keybinds_as_readable_iter(&[&first, &second]);
    let visible = get_visible_keybinds_as_readable_iter(&[&first, &second]);
    for g in &global {
        assert!(visible.contains(g));
    }
}

#[test]
fn global_listing_keeps_the_order_of_the_visible_listing() {
    let km = Keymap::from_pairs(vec![
        (Keybind::new_unmodified(KeyCode::Char('a')), visible(QUIT, KeyActionVisibility::Global)),
        (Keybind::new_unmodified(KeyCode::Char('b')), visible(PLAY, KeyActionVisibility::Standard)),
        (Keybind::new_unmodified(KeyCode::Char('c')), visible(PLAY, KeyActionVisibility::Global)),
    ]);
    let global = get_global_keybinds_as_readable_iter(&[&km]);
    let visible_list = get_visible_keybinds_as_readable_iter(&[&km]);
    let g: Vec<&str> = global.iter().map(|d| d.keybinds.as_str()).collect();
    let v: Vec<&str> = visible_list.iter().map(|d| d.keybinds.as_str()).collect();
    assert_eq!(g, vec!["a", "c"]);
    assert_eq!(v, vec!["a", "b", "c"]);
}
