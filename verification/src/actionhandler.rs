//! Actions, components and the key-stack handler that turns a sequence of
//! key presses into an action, a mode or nothing.
use vstd::prelude::*;

use crate::common::SearchSuggestion;
use crate::config::Config;
use crate::keyaction::{displayed_binding, DisplayableKeyAction, KeyAction, KeyActionVisibility};
use crate::keymap::{tree_visibility, KeyActionTree, Keymap};
use crate::keys::{
    keybind_for_event, keybind_of_event, lemma_shift_ignored_for_chars, KeyEvent, KeyModifiers,
    Keybind, SHIFT_BIT,
};

verus! {

/// An action that can be applied to state.
///
/// `context_text` and `description_text` say what `context` and `describe`
/// return; each implementor states them.
pub trait Action {
    spec fn context_text(&self) -> Seq<char>;

    spec fn description_text(&self) -> Seq<char>;

    /// The part of the application the action belongs to.
    fn context(&self) -> (r: String)
        ensures
            r@ == self.context_text(),
    ;

    /// A human readable description of the action.
    fn describe(&self) -> (r: String)
        ensures
            r@ == self.description_text(),
    ;
}

/// The parts of the application the user can switch to.
#[derive(Debug, Clone, Copy, PartialEq, Eq, Structural)]
pub enum WindowContext {
    Browser,
    Playlist,
    Logs,
}

/// A request from a component to the application.
#[derive(Debug, Clone, Copy, PartialEq, Eq, Structural)]
pub enum AppCallback {
    ChangeContext(WindowContext),
}

/// `async_callback_manager::AsyncTask`: a task for the backend, with the
/// handler of its result.
#[verifier::external_type_specification]
#[verifier::external_body]
#[verifier::reject_recursive_types(Frntend)]
#[verifier::reject_recursive_types(Bkend)]
#[verifier::reject_recursive_types(Md)]
pub struct ExAsyncTask<Frntend, Bkend, Md>(async_callback_manager::AsyncTask<Frntend, Bkend, Md>);

/// A task that does nothing: `AsyncTask::new_no_op` of
/// async_callback_manager. Nothing is stated of the task, which the task
/// manager alone reads.
#[verifier::external_body]
pub(crate) fn no_op_task<Frntend, Bkend, Md>() -> async_callback_manager::AsyncTask<Frntend, Bkend, Md> {
    async_callback_manager::AsyncTask::new_no_op()
}

/// The task `task` with its handler applied to the part of a `NewFrntend`
/// that `f` selects: `AsyncTask::map` of async_callback_manager.
/// Nothing is stated of the task, which the task manager alone reads.
#[verifier::external_body]
fn map_task<Frntend, NewFrntend, Bkend, Md>(
    task: async_callback_manager::AsyncTask<Frntend, Bkend, Md>,
    f: impl Fn(&mut NewFrntend) -> &mut Frntend + Clone + Send + 'static,
) -> async_callback_manager::AsyncTask<NewFrntend, Bkend, Md> where
    Bkend: 'static,
    Frntend: 'static,
    Md: 'static,
 {
    task.map(f)
}

/// A frontend component - has an associated backend and task metadata type.
pub trait Component {
    type Bkend;

    type Md;
}

/// Convenience type alias for an effect for a type implementing Component.
pub type ComponentEffect<C> = async_callback_manager::AsyncTask<C, <C as Component>::Bkend, <C as Component>::Md>;

/// Intended to encapsulate all possible effect types components can
/// generate: a task for the backend and a request to the application.
#[verifier::reject_recursive_types(C)]
pub struct YoutuiEffect<C: Component> {
    pub effect: async_callback_manager::AsyncTask<C, C::Bkend, C::Md>,
    pub callback: Option<AppCallback>,
}

impl<C: Component> YoutuiEffect<C> {
    /// An effect that does nothing.
    pub fn new_no_op() -> (e: YoutuiEffect<C>)
        ensures
            e.callback is None,
    {
        YoutuiEffect { effect: no_op_task(), callback: None }
    }

    /// The effect with its task's handler applied to the part of a `C2`
    /// that `f` selects; the request to the application is kept.
    pub fn map<C2>(self, f: impl Fn(&mut C2) -> &mut C + Clone + Send + 'static) -> (e: YoutuiEffect<C2>) where
        C2: Component<Bkend = C::Bkend, Md = C::Md>,
        C: 'static,
        C::Bkend: 'static,
        C::Md: 'static,

        ensures
            e.callback == self.callback,
    {
        let YoutuiEffect { effect, callback } = self;
        let effect = map_task(effect, f);
        YoutuiEffect { effect, callback }
    }
}

impl<C: Component> From<async_callback_manager::AsyncTask<C, C::Bkend, C::Md>> for YoutuiEffect<C> {
    fn from(value: async_callback_manager::AsyncTask<C, C::Bkend, C::Md>) -> (e: YoutuiEffect<C>) {
        YoutuiEffect { effect: value, callback: None }
    }
}

impl<C: Component> vstd::std_specs::convert::FromSpecImpl<async_callback_manager::AsyncTask<C, C::Bkend, C::Md>> for YoutuiEffect<C> {
    open spec fn obeys_from_spec() -> bool {
        true
    }

    open spec fn from_spec(v: async_callback_manager::AsyncTask<C, C::Bkend, C::Md>) -> YoutuiEffect<C> {
        YoutuiEffect { effect: v, callback: None }
    }
}

impl<C: Component> From<(async_callback_manager::AsyncTask<C, C::Bkend, C::Md>, Option<AppCallback>)> for YoutuiEffect<C> {
    fn from(value: (async_callback_manager::AsyncTask<C, C::Bkend, C::Md>, Option<AppCallback>)) -> (e: YoutuiEffect<C>) {
        YoutuiEffect { effect: value.0, callback: value.1 }
    }
}

impl<C: Component> vstd::std_specs::convert::FromSpecImpl<(async_callback_manager::AsyncTask<C, C::Bkend, C::Md>, Option<AppCallback>)> for YoutuiEffect<C> {
    open spec fn obeys_from_spec() -> bool {
        true
    }

    open spec fn from_spec(v: (async_callback_manager::AsyncTask<C, C::Bkend, C::Md>, Option<AppCallback>)) -> YoutuiEffect<C> {
        YoutuiEffect { effect: v.0, callback: v.1 }
    }
}

/// A component that can handle actions. `action_callback` is the request to
/// the application that applying an action makes, and `after_action` the
/// component once the action is applied.
pub trait ActionHandler<A: Action>: Component + Sized {
    spec fn action_callback(&self, action: A) -> Option<AppCallback>;

    spec fn after_action(self, action: A) -> Self;

    fn apply_action(&mut self, action: A) -> (e: YoutuiEffect<Self>)
        ensures
            e.callback == old(self).action_callback(action),
            *final(self) == old(self).after_action(action),
    ;
}

/// Apply an action that returns an effect that can be mapped to root.
/// Avoids the need to specify both the location and type of the sub-component.
/// `f` is called once, on `root`; the sub-component `c` that it selects
/// handles the action, and `root` changes only as `f` ties it to `c`. The
/// request to the application is that of `c`.
pub fn apply_action_mapped<R, B, C, F>(root: &mut R, action: B, f: F) -> (e: YoutuiEffect<R>) where
    B: Action,
    R: Component,
    R::Bkend: 'static,
    R::Md: 'static,
    C: Component<Bkend = R::Bkend, Md = R::Md>,
    C: ActionHandler<B> + 'static,
    F: Fn(&mut R) -> &mut C + Send + Clone + 'static,

    requires
        forall|r: &mut R| #[trigger] f.requires((r,)),
    ensures
        exists|a: &mut R, c: &mut C|
            #![trigger f.ensures((a,), c)]
            {
                &&& *a == *old(root)
                &&& f.ensures((a,), c)
                &&& e.callback == (*c).action_callback(action)
                &&& *final(c) == (*c).after_action(action)
                &&& *final(root) == *final(a)
            },
{
    let effect = f(root).apply_action(action);
    effect.map(f)
}

/// `crossterm::event::Event`: an event read from the terminal.
#[verifier::external_type_specification]
#[verifier::external_body]
pub struct ExTerminalEvent(crossterm::event::Event);

/// A component of the application that handles text entry. `text` is the
/// text held and `text_handling` whether the text handling part of the
/// component is active; `event_task` is the task the component hands back
/// for a terminal event, if it handles it, and `after_event` what it becomes
/// by handling it.
pub trait TextHandler: Component + Sized {
    spec fn text(&self) -> Seq<char>;

    spec fn text_handling(&self) -> bool;

    spec fn event_task(&self, event: crossterm::event::Event) -> Option<
        async_callback_manager::AsyncTask<Self, Self::Bkend, Self::Md>,
    >;

    spec fn after_event(self, event: crossterm::event::Event) -> Self;

    /// Get a reference to the text.
    fn get_text(&self) -> (r: &str)
        ensures
            r@ == self.text(),
    ;

    /// Clear text, returning false if it was already clear.
    fn clear_text(&mut self) -> (r: bool)
        ensures
            final(self).text() == Seq::<char>::empty(),
            r == (old(self).text().len() != 0),
    ;

    /// Replace all text, while text handling is active.
    fn replace_text(&mut self, text: String)
        ensures
            old(self).text_handling() ==> final(self).text() == text@,
    ;

    /// Text handling could be a subset of the component. Return true if the
    /// text handling subset is active.
    fn is_text_handling(&self) -> (r: bool)
        ensures
            r == self.text_handling(),
    ;

    /// Handle a terminal event, returning a task if an event was handled.
    fn handle_text_event_impl(&mut self, event: &crossterm::event::Event) -> (r: Option<
        async_callback_manager::AsyncTask<Self, Self::Bkend, Self::Md>,
    >) where Self: Sized
        ensures
            r == old(self).event_task(*event),
            *final(self) == old(self).after_event(*event),
    ;

    /// Only handle an event while text handling is active: otherwise the
    /// component is left as it is and no task results.
    fn try_handle_text(&mut self, event: &crossterm::event::Event) -> (r: Option<
        async_callback_manager::AsyncTask<Self, Self::Bkend, Self::Md>,
    >) where Self: Sized
        ensures
            r == if old(self).text_handling() {
                old(self).event_task(*event)
            } else {
                None
            },
            *final(self) == if old(self).text_handling() {
                old(self).after_event(*event)
            } else {
                *old(self)
            },
    {
        if !self.is_text_handling() {
            return None;
        }
        self.handle_text_event_impl(event)
    }
}

/// A text handler that can receive search suggestions. `suggestions` is
/// the suggestions it holds, in order.
pub trait Suggestable: TextHandler {
    spec fn suggestions(&self) -> Seq<SearchSuggestion>;

    /// The suggestions held.
    fn get_search_suggestions(&self) -> (r: &[SearchSuggestion])
        ensures
            r@ == self.suggestions(),
    ;

    /// Whether any suggestion is held.
    fn has_search_suggestions(&self) -> (r: bool)
        ensures
            r == (self.suggestions().len() > 0),
    ;
}

/// A struct that is able to be "scrolled". `scrolled_by` is the struct
/// after its list is incremented by an amount, and `scrollable` whether it
/// is scrollable right now.
pub trait Scrollable: Sized {
    spec fn scrolled_by(self, amount: isize) -> Self;

    spec fn scrollable(&self) -> bool;

    /// Increment the list by the specified amount.
    fn increment_list(&mut self, amount: isize)
        ensures
            *final(self) == old(self).scrolled_by(amount),
    ;

    /// Check if the Scrollable actually is scrollable right now, some other
    /// part of it may be selected.
    fn is_scrollable(&self) -> (r: bool)
        ensures
            r == self.scrollable(),
    ;
}

/// A component that scrolls by handing scrolling to a part of itself.
/// `delegate` is that part, and `with_delegate` the component with that part
/// replaced.
pub trait DelegateScrollable: Sized {
    type Delegate: Scrollable;

    spec fn delegate(&self) -> Self::Delegate;

    spec fn with_delegate(self, d: Self::Delegate) -> Self;

    /// The part that scrolls, to change in place.
    fn delegate_mut(&mut self) -> (r: &mut Self::Delegate)
        ensures
            *r == old(self).delegate(),
            *final(self) == old(self).with_delegate(*final(r)),
    ;

    /// The part that scrolls.
    fn delegate_ref(&self) -> (r: &Self::Delegate)
        ensures
            *r == self.delegate(),
    ;
}

impl<T: DelegateScrollable> Scrollable for T {
    /// Scrolling a component scrolls the part it delegates to.
    open spec fn scrolled_by(self, amount: isize) -> T {
        self.with_delegate(self.delegate().scrolled_by(amount))
    }

    /// A component is scrollable when the part it delegates to is.
    open spec fn scrollable(&self) -> bool {
        self.delegate().scrollable()
    }

    fn increment_list(&mut self, amount: isize) {
        self.delegate_mut().increment_list(amount);
    }

    fn is_scrollable(&self) -> (r: bool) {
        self.delegate_ref().is_scrollable()
    }
}

/// A component of the application that has different keybinds depending on
/// what is focussed. `active_keymaps` and `all_keymaps` say which keymaps of
/// the configuration the component routes to.
pub trait KeyRouter<A: Action> {
    spec fn active_keymaps(&self, config: Config) -> Seq<Keymap<A>>;

    spec fn all_keymaps(&self, config: Config) -> Seq<Keymap<A>>;

    /// Get the list of active keybinds that the component and its route
    /// contain.
    fn get_active_keybinds<'a>(&self, config: &'a Config) -> (r: Vec<&'a Keymap<A>>)
        ensures
            keymaps_of(r@) == self.active_keymaps(*config),
    ;

    /// Get the list of keybinds that the component and any child items can
    /// contain, regardless of current route.
    fn get_all_keybinds<'a>(&self, config: &'a Config) -> (r: Vec<&'a Keymap<A>>)
        ensures
            keymaps_of(r@) == self.all_keymaps(*config),
    ;
}

/// A component of the application that can block parent keybinds, for
/// example one that can display a modal dialog.
pub trait DominantKeyRouter<A: Action> {
    spec fn dominant_active(&self) -> bool;

    spec fn dominant_keymaps(&self, config: Config) -> Seq<Keymap<A>>;

    /// Return true if dominant keybinds are active.
    fn dominant_keybinds_active(&self) -> (r: bool)
        ensures
            r == self.dominant_active(),
    ;

    fn get_dominant_keybinds<'a>(&self, config: &'a Config) -> (r: Vec<&'a Keymap<A>>)
        ensures
            keymaps_of(r@) == self.dominant_keymaps(*config),
    ;
}

/// The action to do after handling a key event.
#[derive(Debug)]
pub enum KeyHandleAction<'a, A> {
    Action(A),
    Mode { name: String, keys: &'a Keymap<A> },
    NoMap,
}

/// What a stack of key presses comes to, as a mathematical value.
pub enum KeyStackOutcome<A> {
    /// The keys name an action.
    Action(A),
    /// The keys enter a mode with this name and keymap.
    Mode(Seq<char>, Keymap<A>),
    /// The keys are bound to nothing.
    NoMap,
}

impl<'a, A> KeyHandleAction<'a, A> {
    /// The outcome this value stands for.
    pub open spec fn outcome(self) -> KeyStackOutcome<A> {
        match self {
            KeyHandleAction::Action(a) => KeyStackOutcome::Action(a),
            KeyHandleAction::Mode { name, keys } => KeyStackOutcome::Mode(name@, *keys),
            KeyHandleAction::NoMap => KeyStackOutcome::NoMap,
        }
    }
}

/// The keymaps that `keys` refer to.
pub open spec fn keymaps_of<'a, A>(keys: Seq<&'a Keymap<A>>) -> Seq<Keymap<A>> {
    keys.map_values(|k: &'a Keymap<A>| *k)
}

/// What `kb` is bound to in the first of `keymaps` that binds it.
pub open spec fn first_binding<A>(keymaps: Seq<Keymap<A>>, kb: Keybind) -> Option<KeyActionTree<A>>
    decreases keymaps.len(),
{
    if keymaps.len() == 0 {
        None
    } else {
        match keymaps[0].lookup(kb) {
            Some(t) => Some(t),
            None => first_binding(keymaps.drop_first(), kb),
        }
    }
}

/// The name shown for a mode: its own name, or a stand-in when it has none.
pub open spec fn mode_name(name: Option<String>) -> Seq<char> {
    match name {
        Some(n) => n@,
        None => "UNNAMED MODE"@,
    }
}

/// What the key presses `rest` come to once a mode named `name` with keymap
/// `keys` has been entered.
pub open spec fn outcome_in_mode<A>(name: Option<String>, keys: Keymap<A>, rest: Seq<KeyEvent>) -> KeyStackOutcome<A>
    decreases rest.len(),
{
    if rest.len() == 0 {
        KeyStackOutcome::Mode(mode_name(name), keys)
    } else {
        match keys.lookup(keybind_of_event(rest[0])) {
            Some(KeyActionTree::Key(k)) => KeyStackOutcome::Action(k.action),
            Some(KeyActionTree::Mode { keys: inner, name: inner_name }) => outcome_in_mode(
                inner_name,
                inner,
                rest.drop_first(),
            ),
            None => KeyStackOutcome::NoMap,
        }
    }
}

/// What the key presses `stack` come to, the first looked up in `keymaps`:
/// nothing for no key; otherwise the first key's binding in the first keymap
/// that binds it decides, an action ending the search and a mode taking the
/// following keys.
pub open spec fn key_stack_outcome<A>(keymaps: Seq<Keymap<A>>, stack: Seq<KeyEvent>) -> KeyStackOutcome<A> {
    if stack.len() == 0 {
        KeyStackOutcome::NoMap
    } else {
        match first_binding(keymaps, keybind_of_event(stack[0])) {
            Some(KeyActionTree::Key(k)) => KeyStackOutcome::Action(k.action),
            Some(KeyActionTree::Mode { keys, name }) => outcome_in_mode(name, keys, stack.drop_first()),
            None => KeyStackOutcome::NoMap,
        }
    }
}

/// Looking up a keybind in a list of keymaps skips the first `j` keymaps
/// when none of them binds it.
proof fn lemma_first_binding_skip<A>(keymaps: Seq<Keymap<A>>, kb: Keybind, j: int)
    requires
        0 <= j <= keymaps.len(),
        forall|i: int| 0 <= i < j ==> (#[trigger] keymaps[i].lookup(kb)) is None,
    ensures
        first_binding(keymaps, kb) == first_binding(keymaps.skip(j), kb),
    decreases j,
{
    if j > 0 {
        assert(keymaps[0].lookup(kb) is None);
        lemma_first_binding_skip(keymaps.drop_first(), kb, j - 1);
        assert(keymaps.drop_first().skip(j - 1) =~= keymaps.skip(j));
    } else {
        assert(keymaps.skip(0) =~= keymaps);
    }
}

/// The binding of `kb` in the first of the keymaps `keys` that binds it.
fn find_binding<'a, A>(keys: &[&'a Keymap<A>], kb: &Keybind) -> (r: Option<&'a KeyActionTree<A>>)
    ensures
        match r {
            Some(t) => first_binding(keymaps_of(keys@), *kb) == Some(*t),
            None => first_binding(keymaps_of(keys@), *kb) is None,
        },
{
    let ghost kms = keymaps_of(keys@);
    let n = keys.len();
    let mut j: usize = 0;
    while j < n
        invariant
            n == keys@.len(),
            kms == keymaps_of(keys@),
            0 <= j <= n,
            forall|i: int| 0 <= i < j ==> (#[trigger] kms[i].lookup(*kb)) is None,
        decreases n - j,
    {
        let km: &'a Keymap<A> = keys[j];
        match km.get(kb) {
            Some(t) => {
                proof {
                    lemma_first_binding_skip(kms, *kb, j as int);
                    assert(kms.skip(j as int)[0] == *km);
                }
                return Some(t);
            },
            None => {},
        }
        j = j + 1;
    }
    proof {
        lemma_first_binding_skip(kms, *kb, n as int);
    }
    None
}

/// Check the current stack of keys, to see if an action is produced, a mode is
/// produced, or nothing produced.
pub fn handle_key_stack<'a, A: Copy>(keys: &[&'a Keymap<A>], key_stack: &[KeyEvent]) -> (r: KeyHandleAction<'a, A>)
    ensures
        r.outcome() == key_stack_outcome(keymaps_of(keys@), key_stack@),
{
    if key_stack.len() == 0 {
        return KeyHandleAction::NoMap;
    }
    let first_kb = keybind_for_event(&key_stack[0]);
    let first_found = find_binding(keys, &first_kb);
    let (mut name, mut cur): (&'a Option<String>, &'a Keymap<A>) = match first_found {
        Some(KeyActionTree::Key(k)) => {
            return KeyHandleAction::Action(k.action);
        },
        Some(KeyActionTree::Mode { name, keys }) => (name, keys),
        None => {
            return KeyHandleAction::NoMap;
        },
    };
    let ghost target = key_stack_outcome(keymaps_of(keys@), key_stack@);
    let n = key_stack.len();
    let mut i: usize = 1;
    proof {
        assert(key_stack@.drop_first() =~= key_stack@.skip(1));
    }
    while i < n
        invariant
            n == key_stack@.len(),
            1 <= i <= n,
            target == key_stack_outcome(keymaps_of(keys@), key_stack@),
            outcome_in_mode(*name, *cur, key_stack@.skip(i as int)) == target,
        decreases n - i,
    {
        let kb = keybind_for_event(&key_stack[i]);
        proof {
            assert(key_stack@.skip(i as int)[0] == key_stack@[i as int]);
            assert(key_stack@.skip(i as int).drop_first() =~= key_stack@.skip(i + 1));
        }
        match cur.get(&kb) {
            Some(KeyActionTree::Key(k)) => {
                return KeyHandleAction::Action(k.action);
            },
            Some(KeyActionTree::Mode { name: inner_name, keys: inner }) => {
                name = inner_name;
                cur = inner;
            },
            None => {
                return KeyHandleAction::NoMap;
            },
        }
        i = i + 1;
    }
    let mode = match name {
        Some(s) => s.clone(),
        None => String::from_str("UNNAMED MODE"),
    };
    KeyHandleAction::Mode { name: mode, keys: cur }
}

/// Keys pressed after those that named an action do not change the outcome.
proof fn lemma_mode_action_final<A>(name: Option<String>, keys: Keymap<A>, rest: Seq<KeyEvent>, more: Seq<KeyEvent>)
    requires
        outcome_in_mode(name, keys, rest) is Action,
    ensures
        outcome_in_mode(name, keys, rest + more) == outcome_in_mode(name, keys, rest),
    decreases rest.len(),
{
    assert((rest + more)[0] == rest[0]);
    assert((rest + more).drop_first() =~= rest.drop_first() + more);
    match keys.lookup(keybind_of_event(rest[0])) {
        Some(KeyActionTree::Mode { keys: inner, name: inner_name }) => {
            lemma_mode_action_final(inner_name, inner, rest.drop_first(), more);
        },
        _ => {},
    }
}

/// Keys pressed after those that are bound to nothing do not change the
/// outcome.
proof fn lemma_mode_no_map_final<A>(name: Option<String>, keys: Keymap<A>, rest: Seq<KeyEvent>, more: Seq<KeyEvent>)
    requires
        outcome_in_mode(name, keys, rest) is NoMap,
    ensures
        outcome_in_mode(name, keys, rest + more) is NoMap,
    decreases rest.len(),
{
    assert((rest + more)[0] == rest[0]);
    assert((rest + more).drop_first() =~= rest.drop_first() + more);
    match keys.lookup(keybind_of_event(rest[0])) {
        Some(KeyActionTree::Mode { keys: inner, name: inner_name }) => {
            lemma_mode_no_map_final(inner_name, inner, rest.drop_first(), more);
        },
        _ => {},
    }
}

/// Once keys have entered a mode, one more key is looked up in that mode's
/// keymap alone.
proof fn lemma_mode_next_key<A>(
    name: Option<String>,
    keys: Keymap<A>,
    rest: Seq<KeyEvent>,
    entered_name: Seq<char>,
    entered: Keymap<A>,
    ev: KeyEvent,
)
    requires
        outcome_in_mode(name, keys, rest) == KeyStackOutcome::Mode(entered_name, entered),
    ensures
        outcome_in_mode(name, keys, rest.push(ev)) == key_stack_outcome(seq![entered], seq![ev]),
    decreases rest.len(),
{
    if rest.len() == 0 {
        let one = seq![entered];
        let kb = keybind_of_event(ev);
        assert(keys == entered);
        assert(one.drop_first() =~= Seq::<Keymap<A>>::empty());
        assert(first_binding(one.drop_first(), kb) is None);
        assert(first_binding(one, kb) == keys.lookup(kb));
        assert(rest.push(ev) =~= seq![ev]);
        assert(seq![ev].drop_first() =~= Seq::<KeyEvent>::empty());
        assert(rest.push(ev).drop_first() =~= Seq::<KeyEvent>::empty());
    } else {
        assert(rest.push(ev)[0] == rest[0]);
        assert(rest.push(ev).drop_first() =~= rest.drop_first().push(ev));
        match keys.lookup(keybind_of_event(rest[0])) {
            Some(KeyActionTree::Mode { keys: inner, name: inner_name }) => {
                lemma_mode_next_key(inner_name, inner, rest.drop_first(), entered_name, entered, ev);
            },
            _ => {},
        }
    }
}

/// Two key stacks whose keys are looked up by the same keybinds, one by one,
/// come to the same outcome once a mode has been entered.
proof fn lemma_mode_same_keybinds<A>(name: Option<String>, keys: Keymap<A>, r1: Seq<KeyEvent>, r2: Seq<KeyEvent>)
    requires
        r1.len() == r2.len(),
        forall|i: int| 0 <= i < r1.len() ==> keybind_of_event(r1[i]) == keybind_of_event(r2[i]),
    ensures
        outcome_in_mode(name, keys, r1) == outcome_in_mode(name, keys, r2),
    decreases r1.len(),
{
    if r1.len() > 0 {
        assert(keybind_of_event(r1[0]) == keybind_of_event(r2[0]));
        assert forall|i: int| 0 <= i < r1.len() - 1 implies keybind_of_event(r1.drop_first()[i])
            == keybind_of_event(r2.drop_first()[i]) by {
            assert(keybind_of_event(r1[i + 1]) == keybind_of_event(r2[i + 1]));
        }
        match keys.lookup(keybind_of_event(r1[0])) {
            Some(KeyActionTree::Mode { keys: inner, name: inner_name }) => {
                lemma_mode_same_keybinds(inner_name, inner, r1.drop_first(), r2.drop_first());
            },
            _ => {},
        }
    }
}

/// With no key pressed, no binding applies.
pub proof fn law_no_keys_no_map<A>(keymaps: Seq<Keymap<A>>)
    ensures
        key_stack_outcome(keymaps, Seq::<KeyEvent>::empty()) is NoMap,
{
}

/// A single key press is looked up by exactly its key and modifiers (a
/// character key pressed without shift, or any other key): against a keymap
/// that binds that keybind to an action, it names that action. So control
/// and the other modifiers are never dropped: Ctrl+c finds a binding of
/// `C-c`.
pub proof fn law_single_key_finds_its_binding<A>(km: Keymap<A>, ev: KeyEvent, k: KeyAction<A>)
    requires
        !(ev.code is Char) || ev.modifiers.bits & 1u8 == 0,
        km.lookup(Keybind { code: ev.code, modifiers: ev.modifiers }) == Some(KeyActionTree::Key(k)),
    ensures
        key_stack_outcome(seq![km], seq![ev]) == KeyStackOutcome::Action(k.action),
{
    crate::keys::law_lookup_drops_only_shift_on_chars(ev);
    assert(keybind_of_event(ev) == (Keybind { code: ev.code, modifiers: ev.modifiers }));
    assert(seq![ev][0] == ev);
    assert(seq![km][0] == km);
}

/// Once a stack of keys names an action, pressing more keys still names the
/// same action: the keys after it are ignored.
pub proof fn law_action_ignores_later_keys<A>(keymaps: Seq<Keymap<A>>, stack: Seq<KeyEvent>, more: Seq<KeyEvent>)
    requires
        key_stack_outcome(keymaps, stack) is Action,
    ensures
        key_stack_outcome(keymaps, stack + more) == key_stack_outcome(keymaps, stack),
{
    assert((stack + more)[0] == stack[0]);
    assert((stack + more).drop_first() =~= stack.drop_first() + more);
    match first_binding(keymaps, keybind_of_event(stack[0])) {
        Some(KeyActionTree::Mode { keys, name }) => {
            lemma_mode_action_final(name, keys, stack.drop_first(), more);
        },
        _ => {},
    }
}

/// Once a non-empty stack of keys is bound to nothing, pressing more keys
/// does not make it bound.
pub proof fn law_unbound_stays_unbound<A>(keymaps: Seq<Keymap<A>>, stack: Seq<KeyEvent>, more: Seq<KeyEvent>)
    requires
        stack.len() > 0,
        key_stack_outcome(keymaps, stack) is NoMap,
    ensures
        key_stack_outcome(keymaps, stack + more) is NoMap,
{
    assert((stack + more)[0] == stack[0]);
    assert((stack + more).drop_first() =~= stack.drop_first() + more);
    match first_binding(keymaps, keybind_of_event(stack[0])) {
        Some(KeyActionTree::Mode { keys, name }) => {
            lemma_mode_no_map_final(name, keys, stack.drop_first(), more);
        },
        _ => {},
    }
}

/// Once a stack of keys has entered a mode, the outcome of pressing one more
/// key is that of pressing that key alone with the mode's keymap as the only
/// keymap.
pub proof fn law_mode_takes_next_key<A>(
    keymaps: Seq<Keymap<A>>,
    stack: Seq<KeyEvent>,
    name: Seq<char>,
    mode_keys: Keymap<A>,
    ev: KeyEvent,
)
    requires
        key_stack_outcome(keymaps, stack) == KeyStackOutcome::Mode(name, mode_keys),
    ensures
        key_stack_outcome(keymaps, stack.push(ev)) == key_stack_outcome(seq![mode_keys], seq![ev]),
{
    assert(stack.push(ev)[0] == stack[0]);
    assert(stack.push(ev).drop_first() =~= stack.drop_first().push(ev));
    match first_binding(keymaps, keybind_of_event(stack[0])) {
        Some(KeyActionTree::Mode { keys, name: mname }) => {
            lemma_mode_next_key(mname, keys, stack.drop_first(), name, mode_keys, ev);
        },
        _ => {},
    }
}

/// Holding shift while pressing a character key does not change the outcome
/// of a key stack: the character already tells whether shift was held.
pub proof fn law_shift_ignored_on_char_keys<A>(keymaps: Seq<Keymap<A>>, stack: Seq<KeyEvent>, i: int)
    requires
        0 <= i < stack.len(),
        stack[i].code is Char,
    ensures
        key_stack_outcome(
            keymaps,
            stack.update(
                i,
                KeyEvent { modifiers: KeyModifiers { bits: stack[i].modifiers.bits | SHIFT_BIT }, ..stack[i] },
            ),
        ) == key_stack_outcome(keymaps, stack),
{
    let shifted = stack.update(
        i,
        KeyEvent { modifiers: KeyModifiers { bits: stack[i].modifiers.bits | SHIFT_BIT }, ..stack[i] },
    );
    lemma_shift_ignored_for_chars(stack[i]);
    assert forall|j: int| 0 <= j < stack.len() implies keybind_of_event(shifted[j]) == keybind_of_event(
        stack[j],
    ) by {}
    assert(keybind_of_event(shifted[0]) == keybind_of_event(stack[0]));
    law_same_keybinds_same_outcome(keymaps, shifted, stack);
}

/// Two key stacks whose keys are looked up by the same keybinds, one by one,
/// come to the same outcome: the kind and state of a key event, and shift on
/// a character key, do not count.
pub proof fn law_same_keybinds_same_outcome<A>(keymaps: Seq<Keymap<A>>, s1: Seq<KeyEvent>, s2: Seq<KeyEvent>)
    requires
        s1.len() == s2.len(),
        forall|i: int| 0 <= i < s1.len() ==> keybind_of_event(s1[i]) == keybind_of_event(s2[i]),
    ensures
        key_stack_outcome(keymaps, s1) == key_stack_outcome(keymaps, s2),
{
    if s1.len() > 0 {
        assert(keybind_of_event(s1[0]) == keybind_of_event(s2[0]));
        assert forall|i: int| 0 <= i < s1.len() - 1 implies keybind_of_event(s1.drop_first()[i])
            == keybind_of_event(s2.drop_first()[i]) by {
            assert(keybind_of_event(s1[i + 1]) == keybind_of_event(s2[i + 1]));
        }
        match first_binding(keymaps, keybind_of_event(s1[0])) {
            Some(KeyActionTree::Mode { keys, name }) => {
                lemma_mode_same_keybinds(name, keys, s1.drop_first(), s2.drop_first());
            },
            _ => {},
        }
    }
}

/// Whether a binding of visibility `v` is listed: in the global listing
/// only global bindings are, otherwise every binding that is not hidden.
pub open spec fn listed(v: KeyActionVisibility, global_only: bool) -> bool {
    if global_only {
        v == KeyActionVisibility::Global
    } else {
        v != KeyActionVisibility::Hidden
    }
}

/// The displayed form of the bindings of `s` that are listed, in order.
pub open spec fn listed_bindings<A: Action>(s: Seq<(Keybind, KeyActionTree<A>)>, global_only: bool) -> Seq<
    (Seq<char>, Seq<char>, Seq<char>),
>
    decreases s.len(),
{
    if s.len() == 0 {
        Seq::empty()
    } else {
        listed_bindings(s.drop_last(), global_only) + if listed(tree_visibility(s.last().1), global_only) {
            seq![displayed_binding(s.last().0, s.last().1)]
        } else {
            Seq::empty()
        }
    }
}

/// The displayed form of the listed bindings of each keymap of `keymaps`,
/// keymap after keymap.
pub open spec fn listed_keymaps<A: Action>(keymaps: Seq<Keymap<A>>, global_only: bool) -> Seq<
    (Seq<char>, Seq<char>, Seq<char>),
>
    decreases keymaps.len(),
{
    if keymaps.len() == 0 {
        Seq::empty()
    } else {
        listed_keymaps(keymaps.drop_last(), global_only) + listed_bindings(
            keymaps.last().bindings(),
            global_only,
        )
    }
}

/// The displayed forms of a list of displayable bindings.
pub open spec fn displayed_list(v: Seq<DisplayableKeyAction>) -> Seq<(Seq<char>, Seq<char>, Seq<char>)> {
    v.map_values(|d: DisplayableKeyAction| d@)
}

/// The listed bindings of the keymaps `keybinds`, displayed.
fn listed_keybinds<'a, A: Action>(keybinds: &[&'a Keymap<A>], global_only: bool) -> (r: Vec<DisplayableKeyAction>)
    ensures
        displayed_list(r@) == listed_keymaps(keymaps_of(keybinds@), global_only),
{
    let ghost kms = keymaps_of(keybinds@);
    let mut out: Vec<DisplayableKeyAction> = Vec::new();
    let n = keybinds.len();
    let mut i: usize = 0;
    while i < n
        invariant
            n == keybinds@.len(),
            kms == keymaps_of(keybinds@),
            0 <= i <= n,
            displayed_list(out@) == listed_keymaps(kms.take(i as int), global_only),
        decreases n - i,
    {
        let km: &Keymap<A> = keybinds[i];
        let bindings = km.as_slice();
        let m = bindings.len();
        let ghost before = displayed_list(out@);
        let mut j: usize = 0;
        while j < m
            invariant
                m == bindings@.len(),
                bindings@ == km.bindings(),
                0 <= j <= m,
                displayed_list(out@) == before + listed_bindings(bindings@.take(j as int), global_only),
            decreases m - j,
        {
            let ghost prev = out@;
            let (kb, kt) = &bindings[j];
            proof {
                assert(bindings@.take(j + 1).drop_last() =~= bindings@.take(j as int));
            }
            let shown = if global_only {
                kt.get_visibility() == KeyActionVisibility::Global
            } else {
                kt.get_visibility() != KeyActionVisibility::Hidden
            };
            if shown {
                out.push(DisplayableKeyAction::from_keybind_and_action_tree(kb, kt));
                proof {
                    assert(displayed_list(out@) =~= displayed_list(prev).push(out@.last()@));
                }
            }
            proof {
                assert(displayed_list(out@) =~= before + listed_bindings(bindings@.take(j + 1), global_only));
            }
            j = j + 1;
        }
        proof {
            assert(bindings@.take(m as int) =~= bindings@);
            assert(kms.take(i + 1).drop_last() =~= kms.take(i as int));
            assert(kms[i as int] == *km);
        }
        i = i + 1;
    }
    proof {
        assert(kms.take(n as int) =~= kms);
    }
    out
}

/// Get the list of all keybinds that the KeyHandler and any child items can
/// contain, regardless of context: every binding that is not hidden.
pub fn get_visible_keybinds_as_readable_iter<'a, A: Action>(keybinds: &[&'a Keymap<A>]) -> (r: Vec<
    DisplayableKeyAction,
>)
    ensures
        displayed_list(r@) == listed_keymaps(keymaps_of(keybinds@), false),
{
    listed_keybinds(keybinds, false)
}

/// Get a context-specific list of all keybinds marked global.
pub fn get_global_keybinds_as_readable_iter<'a, A: Action>(keybinds: &[&'a Keymap<A>]) -> (r: Vec<
    DisplayableKeyAction,
>)
    ensures
        displayed_list(r@) == listed_keymaps(keymaps_of(keybinds@), true),
{
    listed_keybinds(keybinds, true)
}

/// `idx` places each element of `a` in `b`, in increasing order: `a` is `b`
/// with some elements left out and the order kept.
pub open spec fn sublist_at<T>(a: Seq<T>, b: Seq<T>, idx: Seq<int>) -> bool {
    &&& idx.len() == a.len()
    &&& forall|i: int| 0 <= i < idx.len() ==> 0 <= #[trigger] idx[i] < b.len() && a[i] == b[idx[i]]
    &&& forall|i: int, j: int| 0 <= i < j < idx.len() ==> idx[i] < idx[j]
}

/// `a` is `b` with some elements left out and the order kept.
pub open spec fn is_sublist<T>(a: Seq<T>, b: Seq<T>) -> bool {
    exists|idx: Seq<int>| sublist_at(a, b, idx)
}

/// Appending the same element to both sides keeps a sublist.
proof fn lemma_sublist_push_both<T>(a: Seq<T>, b: Seq<T>, idx: Seq<int>, x: T)
    requires
        sublist_at(a, b, idx),
    ensures
        sublist_at(a.push(x), b.push(x), idx.push(b.len() as int)),
{
    let j = idx.push(b.len() as int);
    assert forall|i: int| 0 <= i < j.len() implies 0 <= #[trigger] j[i] < b.push(x).len() && a.push(x)[i]
        == b.push(x)[j[i]] by {
        if i < idx.len() {
            assert(j[i] == idx[i]);
        }
    }
}

/// Appending to the right side keeps a sublist.
proof fn lemma_sublist_push_right<T>(a: Seq<T>, b: Seq<T>, idx: Seq<int>, x: T)
    requires
        sublist_at(a, b, idx),
    ensures
        sublist_at(a, b.push(x), idx),
{
    assert forall|i: int| 0 <= i < idx.len() implies 0 <= #[trigger] idx[i] < b.push(x).len() && a[i]
        == b.push(x)[idx[i]] by {
        assert(idx[i] < b.len());
    }
}

/// Sublists of two lists joined in order make a sublist of the joined lists.
proof fn lemma_sublist_concat<T>(a1: Seq<T>, b1: Seq<T>, i1: Seq<int>, a2: Seq<T>, b2: Seq<T>, i2: Seq<int>) -> (idx: Seq<int>)
    requires
        sublist_at(a1, b1, i1),
        sublist_at(a2, b2, i2),
    ensures
        sublist_at(a1 + a2, b1 + b2, idx),
{
    let shifted = i2.map_values(|k: int| k + b1.len());
    let idx = i1 + shifted;
    let a = a1 + a2;
    let b = b1 + b2;
    assert forall|i: int| 0 <= i < idx.len() implies 0 <= #[trigger] idx[i] < b.len() && a[i] == b[idx[i]] by {
        if i < i1.len() {
            assert(idx[i] == i1[i]);
            assert(a[i] == a1[i]);
            assert(i1[i] < b1.len());
        } else {
            let k = i - i1.len();
            assert(idx[i] == i2[k] + b1.len());
            assert(a[i] == a2[k]);
            assert(0 <= i2[k] < b2.len());
            assert(b[idx[i]] == b2[i2[k]]);
        }
    }
    assert forall|i: int, j: int| 0 <= i < j < idx.len() implies idx[i] < idx[j] by {
        if j < i1.len() {
            assert(idx[i] == i1[i] && idx[j] == i1[j]);
        } else if i < i1.len() {
            assert(idx[i] == i1[i] && i1[i] < b1.len());
            assert(idx[j] == i2[j - i1.len()] + b1.len() && 0 <= i2[j - i1.len()]);
        } else {
            assert(idx[i] == i2[i - i1.len()] + b1.len());
            assert(idx[j] == i2[j - i1.len()] + b1.len());
        }
    }
    idx
}

/// The global listing of a keymap's bindings is its visible listing with
/// some bindings left out and the order kept.
proof fn lemma_global_bindings_sublist<A: Action>(s: Seq<(Keybind, KeyActionTree<A>)>) -> (idx: Seq<int>)
    ensures
        sublist_at(listed_bindings(s, true), listed_bindings(s, false), idx),
    decreases s.len(),
{
    if s.len() == 0 {
        Seq::empty()
    } else {
        let rest = lemma_global_bindings_sublist(s.drop_last());
        let g = listed_bindings(s.drop_last(), true);
        let v = listed_bindings(s.drop_last(), false);
        let x = displayed_binding(s.last().0, s.last().1);
        let vis = tree_visibility(s.last().1);
        if listed(vis, true) {
            lemma_sublist_push_both(g, v, rest, x);
            assert(listed_bindings(s, true) =~= g.push(x));
            assert(listed_bindings(s, false) =~= v.push(x));
            rest.push(v.len() as int)
        } else if listed(vis, false) {
            lemma_sublist_push_right(g, v, rest, x);
            assert(listed_bindings(s, true) =~= g);
            assert(listed_bindings(s, false) =~= v.push(x));
            rest
        } else {
            assert(listed_bindings(s, true) =~= g);
            assert(listed_bindings(s, false) =~= v);
            rest
        }
    }
}

/// The global listing of some keymaps is their visible listing with some
/// bindings left out and the order kept: every global binding is also
/// visible, in the same order.
pub proof fn law_global_listing_is_sublist_of_visible<A: Action>(keymaps: Seq<Keymap<A>>)
    ensures
        is_sublist(listed_keymaps(keymaps, true), listed_keymaps(keymaps, false)),
{
    let idx = global_listing_sublist(keymaps);
}

/// A placing of the global listing of `keymaps` in their visible listing.
proof fn global_listing_sublist<A: Action>(keymaps: Seq<Keymap<A>>) -> (idx: Seq<int>)
    ensures
        sublist_at(listed_keymaps(keymaps, true), listed_keymaps(keymaps, false), idx),
    decreases keymaps.len(),
{
    if keymaps.len() == 0 {
        Seq::empty()
    } else {
        let i1 = global_listing_sublist(keymaps.drop_last());
        let i2 = lemma_global_bindings_sublist(keymaps.last().bindings());
        lemma_sublist_concat(
            listed_keymaps(keymaps.drop_last(), true),
            listed_keymaps(keymaps.drop_last(), false),
            i1,
            listed_bindings(keymaps.last().bindings(), true),
            listed_bindings(keymaps.last().bindings(), false),
            i2,
        )
    }
}

} // verus!
