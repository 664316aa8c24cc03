//! Actions bound to keys, and the type-erased form they are displayed in.
use vstd::prelude::*;

use crate::actionhandler::Action;
use crate::keymap::{tree_context, KeyActionTree, Keymap};
use crate::keys::{keybind_text, Keybind};

verus! {

/// Visibility of a [`KeyAction`].
#[derive(Debug, Clone, Copy, PartialEq, Eq, Structural)]
pub enum KeyActionVisibility {
    /// Displayed on help menu
    Standard,
    /// Displayed on Header and help menu
    Global,
    /// Not displayed
    Hidden,
}

impl Default for KeyActionVisibility {
    fn default() -> (v: KeyActionVisibility)
        ensures
            v == KeyActionVisibility::Standard,
    {
        KeyActionVisibility::Standard
    }
}

/// An action that will be triggered when pressing a particular keybind.
#[derive(Debug, PartialEq)]
pub struct KeyAction<A> {
    pub action: A,
    pub visibility: KeyActionVisibility,
}

/// Type-erased keybinding for displaying.
#[derive(Debug, PartialEq)]
pub struct DisplayableKeyAction {
    pub keybinds: String,
    pub context: String,
    pub description: String,
}

/// Type-erased mode for displaying its actions.
#[derive(Debug)]
pub struct DisplayableMode {
    pub displayable_commands: Vec<DisplayableKeyAction>,
    pub description: String,
}

impl View for DisplayableKeyAction {
    /// The keybind text, the context and the description.
    type V = (Seq<char>, Seq<char>, Seq<char>);

    open spec fn view(&self) -> (Seq<char>, Seq<char>, Seq<char>) {
        (self.keybinds@, self.context@, self.description@)
    }
}

/// How the binding of `key` to `value` is displayed: the keybind's text;
/// the context of what it is bound to; and the action's description, or a
/// mode's name, or the keybind's text for a mode without a name.
pub open spec fn displayed_binding<A: Action>(key: Keybind, value: KeyActionTree<A>) -> (
    Seq<char>,
    Seq<char>,
    Seq<char>,
) {
    (
        keybind_text(key),
        tree_context(value),
        match value {
            KeyActionTree::Key(k) => k.action.description_text(),
            KeyActionTree::Mode { name, .. } => match name {
                Some(n) => n@,
                None => keybind_text(key),
            },
        },
    )
}

impl DisplayableKeyAction {
    /// How the binding of `key` to `value` is displayed. The keys of a mode
    /// are not listed.
    pub fn from_keybind_and_action_tree<A: Action>(key: &Keybind, value: &KeyActionTree<A>) -> (r:
        DisplayableKeyAction)
        ensures
            r@ == displayed_binding(*key, *value),
    {
        match value {
            KeyActionTree::Key(k) => DisplayableKeyAction {
                keybinds: key.to_string(),
                context: k.action.context(),
                description: k.action.describe(),
            },
            KeyActionTree::Mode { name, .. } => DisplayableKeyAction {
                keybinds: key.to_string(),
                context: value.get_context(),
                description: match name {
                    Some(n) => n.clone(),
                    None => key.to_string(),
                },
            },
        }
    }
}

/// How a binding is displayed depends on its keybind and on what it is
/// bound to, as follows: the keybind column is always the keybind's text;
/// a mode without a name is described by the text of the keybind that
/// enters it, whatever keys the mode holds; a named mode by its name; and
/// an action by its own description, in its own context.
pub proof fn law_displayed_description<A: Action>(key: Keybind, keys: Keymap<A>, value: KeyActionTree<A>)
    ensures
        displayed_binding(key, value).0 == keybind_text(key),
        displayed_binding(key, KeyActionTree::Mode { keys, name: None }).2 == keybind_text(key),
        value matches KeyActionTree::Mode { name: Some(n), .. } ==> displayed_binding(key, value).2
            == n@,
        value matches KeyActionTree::Key(k) ==> displayed_binding(key, value).2
            == k.action.description_text(),
        value matches KeyActionTree::Key(k) ==> displayed_binding(key, value).1
            == k.action.context_text(),
{
}

} // verus!
