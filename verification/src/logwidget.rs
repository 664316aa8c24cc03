//! The log widget's state, which records the events handed to it; only
//! handing an event to the widget adds to that record.
use vstd::prelude::*;

use crate::logger::WidgetEvent;
use tui_logger::TuiWidgetEvent as E;

verus! {

/// `tui_logger::TuiWidgetState`: the shared state of the log widgets.
#[verifier::external_type_specification]
#[verifier::external_body]
pub struct ExTuiWidgetState(tui_logger::TuiWidgetState);

/// A fresh log widget state: `TuiWidgetState::default()` of tui_logger.
/// Nothing is stated of the state, which the widget alone reads.
#[verifier::external_body]
fn new_widget_state() -> tui_logger::TuiWidgetState {
    tui_logger::TuiWidgetState::default()
}

/// The state of the log widget, with the widget events handed to it so
/// far.
pub struct LogWidget {
    state: tui_logger::TuiWidgetState,
    handed: Ghost<Seq<WidgetEvent>>,
}

impl LogWidget {
    /// The widget events handed to the widget so far, oldest first.
    pub closed spec fn events(&self) -> Seq<WidgetEvent> {
        self.handed@
    }

    /// The widget once `event` is handed to it: the same shared state, with
    /// `event` joining the events handed so far.
    pub closed spec fn handed(self, event: WidgetEvent) -> LogWidget {
        LogWidget { state: self.state, handed: Ghost(self.handed@.push(event)) }
    }

    /// Handing an event adds just that event to those handed so far and
    /// keeps the shared state.
    pub proof fn lemma_handed(self, event: WidgetEvent)
        ensures
            self.handed(event).events() == self.events().push(event),
            self.handed(event).state() == self.state(),
    {
    }

    /// The shared widget state, which drawing reads.
    pub closed spec fn state(self) -> tui_logger::TuiWidgetState {
        self.state
    }

    /// The shared widget state, which drawing reads.
    pub fn state_ref(&self) -> (r: &tui_logger::TuiWidgetState)
        ensures
            *r == self.state(),
    {
        &self.state
    }

    /// A fresh widget state, to which nothing has been handed.
    pub fn new() -> (w: LogWidget)
        ensures
            w.events() == Seq::<WidgetEvent>::empty(),
    {
        LogWidget { state: new_widget_state(), handed: Ghost(Seq::empty()) }
    }

    /// Hands `event` to the widget: `TuiWidgetState::transition` of
    /// tui_logger, with the event of the same name; the event joins those
    /// handed so far. The state is shared behind a lock and stays the same
    /// value here; how the widget reacts is not stated.
    #[verifier::external_body]
    pub(crate) fn transition(&mut self, event: WidgetEvent)
        ensures
            *final(self) == old(self).handed(event),
            final(self).events() == old(self).events().push(event),
            final(self).state() == old(self).state(),
    {
        self.state.transition(match event {
            WidgetEvent::SpaceKey => E::SpaceKey,
            WidgetEvent::UpKey => E::UpKey,
            WidgetEvent::DownKey => E::DownKey,
            WidgetEvent::LeftKey => E::LeftKey,
            WidgetEvent::RightKey => E::RightKey,
            WidgetEvent::PlusKey => E::PlusKey,
            WidgetEvent::MinusKey => E::MinusKey,
            WidgetEvent::HideKey => E::HideKey,
            WidgetEvent::FocusKey => E::FocusKey,
            WidgetEvent::PrevPageKey => E::PrevPageKey,
            WidgetEvent::NextPageKey => E::NextPageKey,
            WidgetEvent::EscapeKey => E::EscapeKey,
        })
    }
}

} // verus!
