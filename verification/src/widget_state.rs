//! The behavioural contract that every interactive widget's state satisfies:
//! focus handling, event handling and change tracking.

use vstd::prelude::*;

use crate::events::Event;

verus! {

/// What a widget reports after being offered an event.
#[derive(Debug, Clone, Copy, PartialEq, Eq, Structural)]
pub enum InteractionOutcome {
    /// The event changed the widget's observable state.
    Consumed,
    /// The widget did not use the event; the caller should handle it.
    Bubble,
}

impl InteractionOutcome {
    pub fn is_consumed(&self) -> (r: bool)
        ensures
            r == (*self == InteractionOutcome::Consumed),
    {
        matches!(self, InteractionOutcome::Consumed)
    }

    pub fn is_bubble(&self) -> (r: bool)
        ensures
            r == (*self == InteractionOutcome::Bubble),
    {
        matches!(self, InteractionOutcome::Bubble)
    }
}

/// The focus-related observables a widget exposes, as a mathematical value.
/// The form engine reasons about a form purely through a sequence of these.
pub struct WidgetObs {
    /// Whether the widget currently reports holding input focus.
    pub focused: bool,
    /// Whether focus may ever be given to the widget.
    pub can_take_focus: bool,
    /// Whether the most recent `handle_event` call mutated observable state.
    pub changed: bool,
}

/// The capability every interactive widget state implements.
///
/// The invariant every implementor maintains: a widget reporting
/// `focused` also satisfies `can_take_focus`.
pub trait InteractiveWidgetState: Sized {
    /// The widget's focus observables.
    spec fn obs(&self) -> WidgetObs;

    /// The widget's internal well-formedness condition. Constructors
    /// establish it and every method preserves it.
    spec fn inv(&self) -> bool;

    /// The exact relation between the widget before an event, the widget
    /// after it, and the reported outcome. Each widget kind defines its own;
    /// `handle_event` promises it, so a form routing an event to a widget
    /// passes the widget's full semantics on to its own caller.
    spec fn event_transition(&self, event: Event, post: Self, outcome: InteractionOutcome) -> bool;

    /// Everything but the focus flag is the same in `post` as in the widget
    /// itself. Each widget kind spells this out over its own data; `focus`
    /// and `unfocus` promise it, so moving focus around a form can be known
    /// to leave every widget's payload alone.
    spec fn focus_only_transition(&self, post: Self) -> bool;

    /// Offer an event to the widget. The widget mutates itself and reports
    /// `Consumed` exactly when the event changed its observable state;
    /// focus is never affected.
    fn handle_event(&mut self, event: Event) -> (r: InteractionOutcome)
        requires
            old(self).inv(),
        ensures
            final(self).inv(),
            final(self).obs().focused == old(self).obs().focused,
            final(self).obs().can_take_focus == old(self).obs().can_take_focus,
            final(self).obs().changed == (r == InteractionOutcome::Consumed),
            old(self).event_transition(event, *final(self), r),
    ;

    /// Did the most recent `handle_event` call mutate observable state?
    fn changed(&self) -> (r: bool)
        ensures
            r == self.obs().changed,
    ;

    /// Is the widget currently focused?
    fn is_focused(&self) -> (r: bool)
        ensures
            r == self.obs().focused,
    ;

    /// Request focus; a widget that cannot take focus stays unfocused.
    fn focus(&mut self)
        requires
            old(self).inv(),
        ensures
            final(self).inv(),
            final(self).obs().focused == old(self).obs().can_take_focus,
            final(self).obs().can_take_focus == old(self).obs().can_take_focus,
            final(self).obs().changed == old(self).obs().changed,
            old(self).focus_only_transition(*final(self)),
    ;

    /// Give up focus; always succeeds and is idempotent.
    fn unfocus(&mut self)
        requires
            old(self).inv(),
        ensures
            final(self).inv(),
            !final(self).obs().focused,
            final(self).obs().can_take_focus == old(self).obs().can_take_focus,
            final(self).obs().changed == old(self).obs().changed,
            old(self).focus_only_transition(*final(self)),
    ;
}

} // verus!
