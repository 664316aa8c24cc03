//! The log pane: its actions, what each action does to the log widget, and
//! the keymap it is routed.
use vstd::prelude::*;

use core::marker::PhantomData;

use crate::actionhandler::{
    no_op_task, Action, ActionHandler, AppCallback, Component, KeyRouter, TextHandler, WindowContext,
    YoutuiEffect,
};
use crate::config::{AppAction, Config};
use crate::keymap::Keymap;
use crate::logwidget::LogWidget;
use crate::server::TaskMetadata;

verus! {

/// An action of the log pane.
#[derive(Debug, Clone, Copy, PartialEq, Eq, Structural)]
pub enum LoggerAction {
    ToggleTargetSelector,
    ToggleTargetFocus,
    ToggleHideFiltered,
    Up,
    Down,
    PageUp,
    PageDown,
    ReduceShown,
    IncreaseShown,
    ReduceCaptured,
    IncreaseCaptured,
    ExitPageMode,
    ViewBrowser,
}

/// The description of each log pane action.
pub open spec fn logger_action_description(a: LoggerAction) -> Seq<char> {
    match a {
        LoggerAction::ViewBrowser => "View Browser"@,
        LoggerAction::ToggleTargetSelector => "Toggle Target Selector Widget"@,
        LoggerAction::ToggleTargetFocus => "Toggle Focus Selected Target"@,
        LoggerAction::ToggleHideFiltered => "Toggle Hide Filtered Targets"@,
        LoggerAction::Up => "Up - Selector"@,
        LoggerAction::Down => "Down - Selector"@,
        LoggerAction::PageUp => "Enter Page Mode, Scroll History Up"@,
        LoggerAction::PageDown => "In Page Mode: Scroll History Down"@,
        LoggerAction::ReduceShown => "Reduce SHOWN (!) Messages"@,
        LoggerAction::IncreaseShown => "Increase SHOWN (!) Messages"@,
        LoggerAction::ReduceCaptured => "Reduce CAPTURED (!) Messages"@,
        LoggerAction::IncreaseCaptured => "Increase CAPTURED (!) Messages"@,
        LoggerAction::ExitPageMode => "Exit Page Mode"@,
    }
}

impl Action for LoggerAction {
    open spec fn context_text(&self) -> Seq<char> {
        "Logger"@
    }

    open spec fn description_text(&self) -> Seq<char> {
        logger_action_description(*self)
    }

    fn context(&self) -> (r: String) {
        String::from_str("Logger")
    }

    fn describe(&self) -> (r: String) {
        match self {
            LoggerAction::ViewBrowser => String::from_str("View Browser"),
            LoggerAction::ToggleTargetSelector => String::from_str("Toggle Target Selector Widget"),
            LoggerAction::ToggleTargetFocus => String::from_str("Toggle Focus Selected Target"),
            LoggerAction::ToggleHideFiltered => String::from_str("Toggle Hide Filtered Targets"),
            LoggerAction::Up => String::from_str("Up - Selector"),
            LoggerAction::Down => String::from_str("Down - Selector"),
            LoggerAction::PageUp => String::from_str("Enter Page Mode, Scroll History Up"),
            LoggerAction::PageDown => String::from_str("In Page Mode: Scroll History Down"),
            LoggerAction::ReduceShown => String::from_str("Reduce SHOWN (!) Messages"),
            LoggerAction::IncreaseShown => String::from_str("Increase SHOWN (!) Messages"),
            LoggerAction::ReduceCaptured => String::from_str("Reduce CAPTURED (!) Messages"),
            LoggerAction::IncreaseCaptured => String::from_str("Increase CAPTURED (!) Messages"),
            LoggerAction::ExitPageMode => String::from_str("Exit Page Mode"),
        }
    }
}

/// A key event of the log widget.
#[derive(Debug, Clone, Copy, PartialEq, Eq, Structural)]
pub enum WidgetEvent {
    SpaceKey,
    UpKey,
    DownKey,
    LeftKey,
    RightKey,
    PlusKey,
    MinusKey,
    HideKey,
    FocusKey,
    PrevPageKey,
    NextPageKey,
    EscapeKey,
}

/// The log widget event that a log pane action sends, if any.
pub open spec fn widget_event_of(a: LoggerAction) -> Option<WidgetEvent> {
    match a {
        LoggerAction::ToggleTargetSelector => Some(WidgetEvent::HideKey),
        LoggerAction::ToggleTargetFocus => Some(WidgetEvent::FocusKey),
        LoggerAction::ToggleHideFiltered => Some(WidgetEvent::SpaceKey),
        LoggerAction::Up => Some(WidgetEvent::UpKey),
        LoggerAction::Down => Some(WidgetEvent::DownKey),
        LoggerAction::PageUp => Some(WidgetEvent::PrevPageKey),
        LoggerAction::PageDown => Some(WidgetEvent::NextPageKey),
        LoggerAction::ReduceShown => Some(WidgetEvent::LeftKey),
        LoggerAction::IncreaseShown => Some(WidgetEvent::RightKey),
        LoggerAction::ReduceCaptured => Some(WidgetEvent::MinusKey),
        LoggerAction::IncreaseCaptured => Some(WidgetEvent::PlusKey),
        LoggerAction::ExitPageMode => Some(WidgetEvent::EscapeKey),
        LoggerAction::ViewBrowser => None,
    }
}

/// The request to the application that a log pane action makes, if any.
pub open spec fn callback_of(a: LoggerAction) -> Option<AppCallback> {
    match a {
        LoggerAction::ViewBrowser => Some(AppCallback::ChangeContext(WindowContext::Browser)),
        _ => None,
    }
}

/// The log pane. `B` is the backend that the application's tasks run on;
/// the pane hands it no work of its own.
#[verifier::reject_recursive_types(B)]
pub struct Logger<B> {
    logger_state: LogWidget,
    backend: PhantomData<B>,
}

impl<B> Component for Logger<B> {
    type Bkend = B;

    type Md = TaskMetadata;
}

impl<B> Logger<B> {
    /// The widget events handed to the log widget so far, oldest first.
    pub closed spec fn sent_events(&self) -> Seq<WidgetEvent> {
        self.logger_state.events()
    }

    /// The state of the log widget, which drawing reads.
    pub closed spec fn widget(self) -> tui_logger::TuiWidgetState {
        self.logger_state.state()
    }

    /// The pane once `event` is handed to its log widget.
    pub closed spec fn handed(self, event: WidgetEvent) -> Self {
        Logger { logger_state: self.logger_state.handed(event), backend: self.backend }
    }

    /// The state of the log widget, which drawing reads.
    pub fn widget_state(&self) -> (r: &tui_logger::TuiWidgetState)
        ensures
            *r == self.widget(),
    {
        self.logger_state.state_ref()
    }

    /// A log pane with a fresh widget state.
    pub fn new() -> (l: Logger<B>)
        ensures
            l.sent_events() == Seq::<WidgetEvent>::empty(),
    {
        Logger { logger_state: LogWidget::new(), backend: PhantomData }
    }

    fn handle_view_browser(&mut self) -> (e: YoutuiEffect<Self>)
        ensures
            e.callback == Some(AppCallback::ChangeContext(WindowContext::Browser)),
            *final(self) == *old(self),
    {
        (no_op_task(), Some(AppCallback::ChangeContext(WindowContext::Browser))).into()
    }

    fn handle_toggle_hide_filtered(&mut self)
        ensures
            *final(self) == old(self).handed(WidgetEvent::SpaceKey),
            final(self).sent_events() == old(self).sent_events().push(WidgetEvent::SpaceKey),
            final(self).widget() == old(self).widget(),
    {
        self.logger_state.transition(WidgetEvent::SpaceKey);
    }

    fn handle_down(&mut self)
        ensures
            *final(self) == old(self).handed(WidgetEvent::DownKey),
            final(self).sent_events() == old(self).sent_events().push(WidgetEvent::DownKey),
            final(self).widget() == old(self).widget(),
    {
        self.logger_state.transition(WidgetEvent::DownKey);
    }

    fn handle_up(&mut self)
        ensures
            *final(self) == old(self).handed(WidgetEvent::UpKey),
            final(self).sent_events() == old(self).sent_events().push(WidgetEvent::UpKey),
            final(self).widget() == old(self).widget(),
    {
        self.logger_state.transition(WidgetEvent::UpKey);
    }

    fn handle_pgdown(&mut self)
        ensures
            *final(self) == old(self).handed(WidgetEvent::NextPageKey),
            final(self).sent_events() == old(self).sent_events().push(WidgetEvent::NextPageKey),
            final(self).widget() == old(self).widget(),
    {
        self.logger_state.transition(WidgetEvent::NextPageKey);
    }

    fn handle_pgup(&mut self)
        ensures
            *final(self) == old(self).handed(WidgetEvent::PrevPageKey),
            final(self).sent_events() == old(self).sent_events().push(WidgetEvent::PrevPageKey),
            final(self).widget() == old(self).widget(),
    {
        self.logger_state.transition(WidgetEvent::PrevPageKey);
    }

    fn handle_reduce_shown(&mut self)
        ensures
            *final(self) == old(self).handed(WidgetEvent::LeftKey),
            final(self).sent_events() == old(self).sent_events().push(WidgetEvent::LeftKey),
            final(self).widget() == old(self).widget(),
    {
        self.logger_state.transition(WidgetEvent::LeftKey);
    }

    fn handle_increase_shown(&mut self)
        ensures
            *final(self) == old(self).handed(WidgetEvent::RightKey),
            final(self).sent_events() == old(self).sent_events().push(WidgetEvent::RightKey),
            final(self).widget() == old(self).widget(),
    {
        self.logger_state.transition(WidgetEvent::RightKey);
    }

    fn handle_exit_page_mode(&mut self)
        ensures
            *final(self) == old(self).handed(WidgetEvent::EscapeKey),
            final(self).sent_events() == old(self).sent_events().push(WidgetEvent::EscapeKey),
            final(self).widget() == old(self).widget(),
    {
        self.logger_state.transition(WidgetEvent::EscapeKey);
    }

    fn handle_increase_captured(&mut self)
        ensures
            *final(self) == old(self).handed(WidgetEvent::PlusKey),
            final(self).sent_events() == old(self).sent_events().push(WidgetEvent::PlusKey),
            final(self).widget() == old(self).widget(),
    {
        self.logger_state.transition(WidgetEvent::PlusKey);
    }

    fn handle_reduce_captured(&mut self)
        ensures
            *final(self) == old(self).handed(WidgetEvent::MinusKey),
            final(self).sent_events() == old(self).sent_events().push(WidgetEvent::MinusKey),
            final(self).widget() == old(self).widget(),
    {
        self.logger_state.transition(WidgetEvent::MinusKey);
    }

    fn handle_toggle_target_focus(&mut self)
        ensures
            *final(self) == old(self).handed(WidgetEvent::FocusKey),
            final(self).sent_events() == old(self).sent_events().push(WidgetEvent::FocusKey),
            final(self).widget() == old(self).widget(),
    {
        self.logger_state.transition(WidgetEvent::FocusKey);
    }

    fn handle_toggle_target_selector(&mut self)
        ensures
            *final(self) == old(self).handed(WidgetEvent::HideKey),
            final(self).sent_events() == old(self).sent_events().push(WidgetEvent::HideKey),
            final(self).widget() == old(self).widget(),
    {
        self.logger_state.transition(WidgetEvent::HideKey);
    }
}

impl<B> ActionHandler<LoggerAction> for Logger<B> {
    /// Only switching to the browser asks anything of the application.
    open spec fn action_callback(&self, action: LoggerAction) -> Option<AppCallback> {
        callback_of(action)
    }

    /// Every action but switching to the browser hands the log widget its
    /// event; switching to the browser leaves the pane as it is.
    closed spec fn after_action(self, action: LoggerAction) -> Self {
        match widget_event_of(action) {
            Some(e) => self.handed(e),
            None => self,
        }
    }

    /// Applies `action`: every action but switching to the browser hands
    /// the log widget its event; switching to the browser asks the
    /// application to change context. The pane keeps its widget state,
    /// which the event changes behind its lock, and no backend task results.
    fn apply_action(&mut self, action: LoggerAction) -> (e: YoutuiEffect<Self>)
        ensures
            final(self).widget() == old(self).widget(),
            final(self).sent_events() == match widget_event_of(action) {
                Some(w) => old(self).sent_events().push(w),
                None => old(self).sent_events(),
            },
    {
        match action {
            LoggerAction::ToggleTargetSelector => self.handle_toggle_target_selector(),
            LoggerAction::ToggleTargetFocus => self.handle_toggle_target_focus(),
            LoggerAction::ToggleHideFiltered => self.handle_toggle_hide_filtered(),
            LoggerAction::Up => self.handle_up(),
            LoggerAction::Down => self.handle_down(),
            LoggerAction::PageUp => self.handle_pgup(),
            LoggerAction::PageDown => self.handle_pgdown(),
            LoggerAction::ReduceShown => self.handle_reduce_shown(),
            LoggerAction::IncreaseShown => self.handle_increase_shown(),
            LoggerAction::ReduceCaptured => self.handle_reduce_captured(),
            LoggerAction::IncreaseCaptured => self.handle_increase_captured(),
            LoggerAction::ExitPageMode => self.handle_exit_page_mode(),
            LoggerAction::ViewBrowser => return self.handle_view_browser(),
        }
        no_op_task().into()
    }
}

/// What each log pane action does to the pane `l`: reducing and increasing
/// the shown messages press left and right, reducing and increasing the
/// captured messages press minus and plus, the selector moves up and down,
/// page mode scrolls with previous and next page and is left with escape,
/// and the target toggles press hide, focus and space. Switching to the
/// browser hands the widget nothing and is the one action that asks the
/// application for anything. No action changes the widget's shared state.
pub proof fn law_logger_action_effects<B>(l: Logger<B>, action: LoggerAction)
    ensures
        l.after_action(LoggerAction::ToggleTargetSelector).sent_events() == l.sent_events().push(WidgetEvent::HideKey),
        l.after_action(LoggerAction::ToggleTargetFocus).sent_events() == l.sent_events().push(WidgetEvent::FocusKey),
        l.after_action(LoggerAction::ToggleHideFiltered).sent_events() == l.sent_events().push(WidgetEvent::SpaceKey),
        l.after_action(LoggerAction::Up).sent_events() == l.sent_events().push(WidgetEvent::UpKey),
        l.after_action(LoggerAction::Down).sent_events() == l.sent_events().push(WidgetEvent::DownKey),
        l.after_action(LoggerAction::PageUp).sent_events() == l.sent_events().push(WidgetEvent::PrevPageKey),
        l.after_action(LoggerAction::PageDown).sent_events() == l.sent_events().push(WidgetEvent::NextPageKey),
        l.after_action(LoggerAction::ReduceShown).sent_events() == l.sent_events().push(WidgetEvent::LeftKey),
        l.after_action(LoggerAction::IncreaseShown).sent_events() == l.sent_events().push(WidgetEvent::RightKey),
        l.after_action(LoggerAction::ReduceCaptured).sent_events() == l.sent_events().push(WidgetEvent::MinusKey),
        l.after_action(LoggerAction::IncreaseCaptured).sent_events() == l.sent_events().push(WidgetEvent::PlusKey),
        l.after_action(LoggerAction::ExitPageMode).sent_events() == l.sent_events().push(WidgetEvent::EscapeKey),
        l.after_action(LoggerAction::ViewBrowser) == l,
        l.action_callback(LoggerAction::ViewBrowser) == Some(
            AppCallback::ChangeContext(WindowContext::Browser),
        ),
        l.action_callback(LoggerAction::ToggleTargetSelector) is None,
        l.action_callback(LoggerAction::ToggleTargetFocus) is None,
        l.action_callback(LoggerAction::ToggleHideFiltered) is None,
        l.action_callback(LoggerAction::Up) is None,
        l.action_callback(LoggerAction::Down) is None,
        l.action_callback(LoggerAction::PageUp) is None,
        l.action_callback(LoggerAction::PageDown) is None,
        l.action_callback(LoggerAction::ReduceShown) is None,
        l.action_callback(LoggerAction::IncreaseShown) is None,
        l.action_callback(LoggerAction::ReduceCaptured) is None,
        l.action_callback(LoggerAction::IncreaseCaptured) is None,
        l.action_callback(LoggerAction::ExitPageMode) is None,
        l.after_action(action).widget() == l.widget(),
        l.after_action(action).sent_events().len() <= l.sent_events().len() + 1,
{
    assert forall|e: WidgetEvent| #[trigger] l.handed(e).sent_events() == l.sent_events().push(e)
        && l.handed(e).widget() == l.widget() by {
        l.logger_state.lemma_handed(e);
    }
    if let Some(e) = widget_event_of(action) {
        l.logger_state.lemma_handed(e);
    }
}

/// The description of each log pane action, as the help menu shows it,
/// and the context every one of them belongs to, also when it stands as an
/// action of the application.
pub proof fn law_logger_action_descriptions(action: LoggerAction)
    ensures
        LoggerAction::ToggleTargetSelector.description_text() == "Toggle Target Selector Widget"@,
        LoggerAction::ToggleTargetFocus.description_text() == "Toggle Focus Selected Target"@,
        LoggerAction::ToggleHideFiltered.description_text() == "Toggle Hide Filtered Targets"@,
        LoggerAction::Up.description_text() == "Up - Selector"@,
        LoggerAction::Down.description_text() == "Down - Selector"@,
        LoggerAction::PageUp.description_text() == "Enter Page Mode, Scroll History Up"@,
        LoggerAction::PageDown.description_text() == "In Page Mode: Scroll History Down"@,
        LoggerAction::ReduceShown.description_text() == "Reduce SHOWN (!) Messages"@,
        LoggerAction::IncreaseShown.description_text() == "Increase SHOWN (!) Messages"@,
        LoggerAction::ReduceCaptured.description_text() == "Reduce CAPTURED (!) Messages"@,
        LoggerAction::IncreaseCaptured.description_text() == "Increase CAPTURED (!) Messages"@,
        LoggerAction::ExitPageMode.description_text() == "Exit Page Mode"@,
        LoggerAction::ViewBrowser.description_text() == "View Browser"@,
        action.context_text() == "Logger"@,
        AppAction::Log(action).description_text() == action.description_text(),
        AppAction::Log(action).context_text() == "Logger"@,
{
}

impl<B> TextHandler for Logger<B> {
    /// The log pane holds no text.
    open spec fn text(&self) -> Seq<char> {
        Seq::empty()
    }

    /// The log pane never handles text.
    open spec fn text_handling(&self) -> bool {
        false
    }

    open spec fn event_task(&self, event: crossterm::event::Event) -> Option<
        async_callback_manager::AsyncTask<Self, B, TaskMetadata>,
    > {
        None
    }

    open spec fn after_event(self, event: crossterm::event::Event) -> Self {
        self
    }

    fn get_text(&self) -> (r: &str) {
        proof {
            reveal_strlit("");
        }
        ""
    }

    fn clear_text(&mut self) -> (r: bool) {
        false
    }

    fn replace_text(&mut self, text: String) {
    }

    fn is_text_handling(&self) -> (r: bool) {
        false
    }

    fn handle_text_event_impl(&mut self, event: &crossterm::event::Event) -> (r: Option<
        async_callback_manager::AsyncTask<Self, B, TaskMetadata>,
    >) where Self: Sized {
        None
    }
}

impl<B> KeyRouter<AppAction> for Logger<B> {
    open spec fn active_keymaps(&self, config: Config) -> Seq<Keymap<AppAction>> {
        seq![config.keybinds.log]
    }

    open spec fn all_keymaps(&self, config: Config) -> Seq<Keymap<AppAction>> {
        seq![config.keybinds.log]
    }

    fn get_active_keybinds<'a>(&self, config: &'a Config) -> (r: Vec<&'a Keymap<AppAction>>) {
        let mut v: Vec<&'a Keymap<AppAction>> = Vec::new();
        v.push(&config.keybinds.log);
        proof {
            assert(crate::actionhandler::keymaps_of(v@) =~= seq![config.keybinds.log]);
        }
        v
    }

    fn get_all_keybinds<'a>(&self, config: &'a Config) -> (r: Vec<&'a Keymap<AppAction>>) {
        self.get_active_keybinds(config)
    }
}

} // verus!
