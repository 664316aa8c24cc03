use youtui::keymap::{KeyActionTree, Keymap};
use youtui::keyaction::KeyActionVisibility;
use youtui::keys::{KeyCode, KeyModifiers, Keybind, CONTROL_BIT};

fn key(c: char) -> Keybind {
    Keybind::new_unmodified(KeyCode::Char(c))
}

#[test]
fn get_after_insert_gives_the_inserted_binding() {
    let mut km: Keymap<u8> = Keymap::new();
    assert_eq!(km.len(), 0);
    assert!(km.get(&key('a')).is_none());
    km.insert(key('a'), KeyActionTree::new_key(1));
    km.insert(key('b'), KeyActionTree::new_key(2));
    assert_eq!(km.get(&key('a')), Some(&KeyActionTree::new_key(1)));
    assert_eq!(km.get(&key('b')), Some(&KeyActionTree::new_key(2)));
    assert!(km.get(&key('c')).is_none());
    assert_eq!(km.len(), 2);
}

#[test]
fn insert_replaces_in_place() {
    let mut km: Keymap<u8> = Keymap::new();
    km.insert(key('a'), KeyActionTree::new_key(1));
    km.insert(key('b'), KeyActionTree::new_key(2));
    km.insert(key('a'), KeyActionTree::new_key(3));
    assert_eq!(km.len(), 2);
    let s = km.as_slice();
    assert_eq!(s[0].0, key('a'));
    assert_eq!(s[0].1, KeyActionTree::new_key(3));
    assert_eq!(s[1].0, key('b'));
}

#[test]
fn from_pairs_keeps_the_last_pair_of_a_keybind() {
    let km = Keymap::from_pairs(vec![
        (key('a'), KeyActionTree::new_key(1u8)),
        (key('b'), KeyActionTree::new_key(2)),
        (key('a'), KeyActionTree::new_key(3)),
    ]);
    assert_eq!(km.len(), 2);
    assert_eq!(km.get(&key('a')), Some(&KeyActionTree::new_key(3)));
    assert_eq!(km.as_slice()[0].0, key('a'));
}

#[test]
fn modifiers_make_a_different_keybind() {
    let mut km: Keymap<u8> = Keymap::new();
    km.insert(key('a'), KeyActionTree::new_key(1));
    let ctrl_a = Keybind { code: KeyCode::Char('a'), modifiers: KeyModifiers { bits: CONTROL_BIT } };
    assert!(km.get(&ctrl_a).is_none());
}

#[test]
fn new_key_is_shown_in_the_help_menu_and_a_mode_has_default_visibility() {
    let k: KeyActionTree<u8> = KeyActionTree::new_key(1);
    assert_eq!(k.get_visibility(), KeyActionVisibility::Standard);
    let m: KeyActionTree<u8> = KeyActionTree::new_mode(vec![], "M".to_string());
    assert_eq!(m.get_visibility(), KeyActionVisibility::Standard);
    assert_eq!(KeyActionVisibility::default(), KeyActionVisibility::Standard);
}
