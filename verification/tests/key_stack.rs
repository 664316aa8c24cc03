use youtui::actionhandler::{handle_key_stack, KeyHandleAction};
use youtui::keymap::{KeyActionTree, Keymap};
use youtui::keys::{KeyCode, KeyEvent, KeyModifiers, Keybind, SHIFT_BIT};

#[derive(PartialEq, Debug, Copy, Clone)]
enum TestAction {
    Test1,
    Test2,
    Test3,
    TestStack,
}

fn shift() -> KeyModifiers {
    KeyModifiers { bits: SHIFT_BIT }
}

fn play_mode_keys() -> Vec<(Keybind, KeyActionTree<TestAction>)> {
    vec![
        (
            Keybind::new_unmodified(KeyCode::Enter),
            KeyActionTree::new_key(TestAction::Test2),
        ),
        (
            Keybind::new_unmodified(KeyCode::Char('a')),
            KeyActionTree::new_key(TestAction::Test3),
        ),
        (
            Keybind::new_unmodified(KeyCode::Char('p')),
            KeyActionTree::new_key(TestAction::Test2),
        ),
        (
            Keybind::new_unmodified(KeyCode::Char(' ')),
            KeyActionTree::new_key(TestAction::Test3),
        ),
        (
            Keybind::new_unmodified(KeyCode::Char('P')),
            KeyActionTree::new_key(TestAction::Test2),
        ),
        (
            Keybind::new_unmodified(KeyCode::Char('A')),
            KeyActionTree::new_key(TestAction::TestStack),
        ),
    ]
}

fn test_keymap() -> Keymap<TestAction> {
    Keymap::from_pairs(vec![
        (
            Keybind::new_unmodified(KeyCode::F(10)),
            KeyActionTree::new_key(TestAction::Test1),
        ),
        (
            Keybind::new_unmodified(KeyCode::F(12)),
            KeyActionTree::new_key(TestAction::Test2),
        ),
        (
            Keybind::new_unmodified(KeyCode::Left),
            KeyActionTree::new_key(TestAction::Test3),
        ),
        (
            Keybind::new_unmodified(KeyCode::Right),
            KeyActionTree::new_key(TestAction::Test3),
        ),
        (
            Keybind::new_unmodified(KeyCode::Enter),
            KeyActionTree::new_mode(play_mode_keys(), "Play".to_string()),
        ),
    ])
}

#[test]
fn test_key_stack_shift_modifier() {
    let kb = test_keymap();
    let ks1 = KeyEvent::new(KeyCode::Enter, KeyModifiers::empty());
    let ks2 = KeyEvent::new(KeyCode::Char('A'), shift());
    let key_stack = [ks1, ks2];
    let expected = TestAction::TestStack;
    let output = handle_key_stack(&[&kb], &key_stack);
    let KeyHandleAction::Action(output) = output else {
        panic!("Expected keyhandleoutcome::action");
    };
    assert_eq!(expected, output);
}

#[test]
fn test_key_stack() {
    let kb = test_keymap();
    let ks1 = KeyEvent::new(KeyCode::Enter, KeyModifiers::empty());
    let ks2 = KeyEvent::new(KeyCode::Char('A'), KeyModifiers::empty());
    let key_stack = [ks1, ks2];
    let expected = TestAction::TestStack;
    let KeyHandleAction::Action(output) = handle_key_stack(&[&kb], &key_stack) else {
        panic!("Expected keyhandleoutcome::action");
    };
    assert_eq!(expected, output);
}

#[test]
fn test_index_keybinds() {
    let kb = test_keymap();
    let ks = KeyEvent::new(KeyCode::Enter, KeyModifiers::empty());
    let expected_keys = Keymap::from_pairs(play_mode_keys());
    let expected_name = "Play".to_string();
    let KeyHandleAction::Mode { keys, name } = handle_key_stack(&[&kb], &[ks]) else {
        panic!("Expected keyhandleoutcome::mode");
    };
    assert_eq!(name, expected_name);
    assert_eq!(keys, &expected_keys);
}

#[test]
fn empty_key_stack_is_unmapped() {
    let kb = test_keymap();
    assert!(matches!(handle_key_stack(&[&kb], &[]), KeyHandleAction::NoMap));
}

#[test]
fn unbound_first_key_is_unmapped() {
    let kb = test_keymap();
    let ks = KeyEvent::new(KeyCode::Char('z'), KeyModifiers::empty());
    assert!(matches!(handle_key_stack(&[&kb], &[ks]), KeyHandleAction::NoMap));
}

#[test]
fn unbound_key_in_mode_is_unmapped_and_stays_so() {
    let kb = test_keymap();
    let enter = KeyEvent::new(KeyCode::Enter, KeyModifiers::empty());
    let z = KeyEvent::new(KeyCode::Char('z'), KeyModifiers::empty());
    let a = KeyEvent::new(KeyCode::Char('a'), KeyModifiers::empty());
    assert!(matches!(handle_key_stack(&[&kb], &[enter, z]), KeyHandleAction::NoMap));
    assert!(matches!(handle_key_stack(&[&kb], &[enter, z, a]), KeyHandleAction::NoMap));
}

#[test]
fn keys_after_an_action_are_ignored() {
    let kb = test_keymap();
    let f10 = KeyEvent::new(KeyCode::F(10), KeyModifiers::empty());
    let enter = KeyEvent::new(KeyCode::Enter, KeyModifiers::empty());
    let KeyHandleAction::Action(a) = handle_key_stack(&[&kb], &[f10, enter, enter]) else {
        panic!("expected an action");
    };
    assert_eq!(a, TestAction::Test1);
}

#[test]
fn shift_is_kept_for_keys_that_are_not_characters() {
    let kb = test_keymap();
    let shifted_f10 = KeyEvent::new(KeyCode::F(10), shift());
    assert!(matches!(handle_key_stack(&[&kb], &[shifted_f10]), KeyHandleAction::NoMap));
}

#[test]
fn shift_is_dropped_for_character_keys_only() {
    let mut km: Keymap<TestAction> = Keymap::new();
    km.insert(Keybind::new_unmodified(KeyCode::Char('x')), KeyActionTree::new_key(TestAction::Test1));
    let shifted_x = KeyEvent::new(KeyCode::Char('x'), shift());
    let KeyHandleAction::Action(a) = handle_key_stack(&[&km], &[shifted_x]) else {
        panic!("expected an action");
    };
    assert_eq!(a, TestAction::Test1);
}

#[test]
fn first_keymap_that_binds_the_key_wins() {
    let mut first: Keymap<TestAction> = Keymap::new();
    first.insert(Keybind::new_unmodified(KeyCode::Up), KeyActionTree::new_key(TestAction::Test2));
    let second = test_keymap();
    let up = KeyEvent::new(KeyCode::Up, KeyModifiers::empty());
    let f12 = KeyEvent::new(KeyCode::F(12), KeyModifiers::empty());
    let f10 = KeyEvent::new(KeyCode::F(10), KeyModifiers::empty());
    let mut shadow: Keymap<TestAction> = Keymap::new();
    shadow.insert(Keybind::new_unmodified(KeyCode::F(10)), KeyActionTree::new_key(TestAction::Test3));
    assert!(matches!(handle_key_stack(&[&first, &second], &[up]), KeyHandleAction::Action(TestAction::Test2)));
    assert!(matches!(handle_key_stack(&[&first, &second], &[f12]), KeyHandleAction::Action(TestAction::Test2)));
    assert!(matches!(handle_key_stack(&[&shadow, &second], &[f10]), KeyHandleAction::Action(TestAction::Test3)));
    assert!(matches!(handle_key_stack(&[&second, &shadow], &[f10]), KeyHandleAction::Action(TestAction::Test1)));
}

#[test]
fn mode_without_name_is_shown_as_unnamed() {
    let mut inner: Keymap<TestAction> = Keymap::new();
    inner.insert(Keybind::new_unmodified(KeyCode::Up), KeyActionTree::new_key(TestAction::Test1));
    let mut km: Keymap<TestAction> = Keymap::new();
    km.insert(
        Keybind::new_unmodified(KeyCode::Tab),
        KeyActionTree::Mode { keys: inner, name: None },
    );
    let tab = KeyEvent::new(KeyCode::Tab, KeyModifiers::empty());
    let KeyHandleAction::Mode { name, .. } = handle_key_stack(&[&km], &[tab]) else {
        panic!("expected a mode");
    };
    assert_eq!(name, "UNNAMED MODE");
}

#[test]
fn next_key_in_mode_is_looked_up_in_the_mode_alone() {
    let kb = test_keymap();
    let enter = KeyEvent::new(KeyCode::Enter, KeyModifiers::empty());
    let p = KeyEvent::new(KeyCode::Char('p'), KeyModifiers::empty());
    let KeyHandleAction::Mode { keys, .. } = handle_key_stack(&[&kb], &[enter]) else {
        panic!("expected a mode");
    };
    let alone = handle_key_stack(&[keys], &[p]);
    let after = handle_key_stack(&[&kb], &[enter, p]);
    assert!(matches!(alone, KeyHandleAction::Action(TestAction::Test2)));
    assert!(matches!(after, KeyHandleAction::Action(TestAction::Test2)));
}
