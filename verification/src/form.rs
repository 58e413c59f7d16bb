//! The form engine: circular focus traversal and event routing over any
//! registry of widget states.
//!
//! A registry implements [`InteractiveFormHooks`]: indexed, order-stable
//! access to the widget states of a form plus one slot holding which index is
//! focused. [`InteractiveForm`] is implemented once, for every registry: it
//! routes events to the focused widget and cycles focus with
//! `focus_next_input` / `focus_prev_input`.
//!
//! Focus cycling deliberately does not wrap at the ends: tabbing past the
//! last field leaves no field focused, so that control returns to the host
//! application (for a global keybinding, say) before focus re-enters at the
//! first field.

use vstd::prelude::*;

use crate::events::Event;
use crate::widget_state::{InteractionOutcome, InteractiveWidgetState};

verus! {

/// Does the optional index point at position `j`?
pub open spec fn points_at(o: Option<usize>, j: int) -> bool {
    match o {
        Some(i) => i as int == j,
        None => false,
    }
}

/// The focus transition of `focus_next_input` on a form of `n` fields:
/// `None` enters at the first field, the last field exits to `None`,
/// anything else moves one field down.
pub open spec fn spec_focus_next(n: nat, cur: Option<usize>) -> Option<usize> {
    match cur {
        Some(i) => if i + 1 == n {
            None
        } else {
            Some((i + 1) as usize)
        },
        None => if n == 0 {
            None
        } else {
            Some(0 as usize)
        },
    }
}

/// The focus transition of `focus_prev_input`: `None` enters at the last
/// field, the first field exits to `None`, anything else moves one field up.
pub open spec fn spec_focus_prev(n: nat, cur: Option<usize>) -> Option<usize> {
    match cur {
        Some(i) => if i == 0 {
            None
        } else {
            Some((i - 1) as usize)
        },
        None => if n == 0 {
            None
        } else {
            Some((n - 1) as usize)
        },
    }
}

/// The focused index after `k` calls of `focus_next_input`, starting from
/// `cur`, on a form of `n` fields.
pub open spec fn iter_focus_next(n: nat, cur: Option<usize>, k: nat) -> Option<usize>
    decreases k,
{
    if k == 0 {
        cur
    } else {
        spec_focus_next(n, iter_focus_next(n, cur, (k - 1) as nat))
    }
}

proof fn lemma_iter_focus_next_prefix(n: nat, k: nat)
    requires
        0 < n <= usize::MAX,
        1 <= k <= n,
    ensures
        iter_focus_next(n, None::<usize>, k) == Some((k - 1) as usize),
    decreases k,
{
    if k == 1 {
        assert(iter_focus_next(n, None::<usize>, 0) == None::<usize>);
    } else {
        lemma_iter_focus_next_prefix(n, (k - 1) as nat);
        assert(iter_focus_next(n, None::<usize>, k) == spec_focus_next(
            n,
            Some((k - 2) as usize),
        ));
    }
}

/// One full cycle of `focus_next_input` over a form of `n > 0` fields:
/// starting with no focus, `n + 1` calls walk through every field and come
/// back to no focus — the cycle includes the "no focus" gap — and one more
/// call reaches the first field again.
pub proof fn lemma_focus_next_full_cycle(n: nat)
    requires
        0 < n <= usize::MAX,
    ensures
        iter_focus_next(n, None::<usize>, n + 1) == None::<usize>,
        iter_focus_next(n, None::<usize>, n + 2) == Some(0 as usize),
{
    lemma_iter_focus_next_prefix(n, n);
}

/// `focus_next_input` and `focus_prev_input` are inverses of one another,
/// in either order, from every focus state of a form of `n` fields — also at
/// the two boundary transitions through "no focus".
pub proof fn lemma_focus_next_prev_inverse(n: nat, cur: Option<usize>)
    requires
        n <= usize::MAX,
        match cur {
            Some(i) => (i as nat) < n,
            None => true,
        },
    ensures
        spec_focus_prev(n, spec_focus_next(n, cur)) == cur,
        spec_focus_next(n, spec_focus_prev(n, cur)) == cur,
{
}

/// At most one field of a well-formed form reports focus, and it is exactly
/// the field the focused index points at.
pub proof fn lemma_at_most_one_focused<T: InteractiveFormHooks>(form: &T, i: int, j: int)
    requires
        form_inv(form),
        0 <= i < form.widgets().len(),
        0 <= j < form.widgets().len(),
        form.widgets()[i].obs().focused,
        form.widgets()[j].obs().focused,
    ensures
        i == j,
        points_at(form.focused_idx(), i),
{
}

/// When the focused index points at a focusable field, that field reports
/// focus; with no focused index, no field reports focus.
pub proof fn lemma_focused_index_focuses<T: InteractiveFormHooks>(form: &T)
    requires
        form_inv(form),
    ensures
        match form.focused_idx() {
            Some(i) => (i as nat) < form.widgets().len() && (form.widgets()[i as int].obs().can_take_focus
                ==> form.widgets()[i as int].obs().focused),
            None => forall|j: int|
                0 <= j < form.widgets().len() ==> !(#[trigger] form.widgets()[j]).obs().focused,
        },
{
}

/// Per-form glue giving the engine indexed access into the form's widget
/// states. A registry keeps its fields in declaration order, never reorders
/// or resizes them, and stores which index is focused in one extra slot.
pub trait InteractiveFormHooks: Sized {
    /// The concrete widget state type the form holds.
    type Widget: InteractiveWidgetState;

    /// The form's widget states, in declaration order.
    spec fn widgets(&self) -> Seq<Self::Widget>;

    /// The focused index slot.
    spec fn focused_idx(&self) -> Option<usize>;

    /// The registry's own well-formedness; includes every widget's
    /// invariant.
    spec fn hooks_inv(&self) -> bool;

    /// Which index is focused, `None` for no focus.
    fn focused_state_idx(&self) -> (r: Option<usize>)
        ensures
            r == self.focused_idx(),
    ;

    /// Store which index is focused. A form with no fields stores nothing:
    /// its focused index is always `None`.
    fn set_focused_state_idx(&mut self, idx: Option<usize>)
        requires
            old(self).hooks_inv(),
        ensures
            final(self).hooks_inv(),
            final(self).widgets() == old(self).widgets(),
            final(self).focused_idx() == if old(self).widgets().len() == 0 {
                None::<usize>
            } else {
                idx
            },
    ;

    /// How many widget states the form holds; fixed at construction.
    fn input_states_len(&self) -> (n: usize)
        ensures
            n as nat == self.widgets().len(),
    ;

    /// The widget state at `idx`, or `None` exactly when `idx` is out of
    /// range.
    fn input_state_at(&self, idx: usize) -> (r: Option<&Self::Widget>)
        ensures
            match r {
                Some(w) => (idx as nat) < self.widgets().len() && *w == self.widgets()[idx as int],
                None => idx as nat >= self.widgets().len(),
            },
    ;

    /// Mutable access to the widget state at `idx`, or `None` exactly when
    /// `idx` is out of range. Whatever the caller leaves in the widget
    /// replaces the old state at that position; if it still satisfies the
    /// widget's invariant, the registry is well-formed again.
    fn input_state_at_mut(&mut self, idx: usize) -> (r: Option<&mut Self::Widget>)
        requires
            old(self).hooks_inv(),
        ensures
            match r {
                Some(w) => (idx as nat) < old(self).widgets().len() && *w == old(self).widgets()[
                    idx as int
                ] && (*w).inv() && final(self).widgets() == old(self).widgets().update(
                    idx as int,
                    *final(w),
                ) && final(self).focused_idx() == old(self).focused_idx() && ((*final(w)).inv()
                    ==> final(self).hooks_inv()),
                None => (idx as nat) >= old(self).widgets().len() && *final(self) == *old(self),
            },
    ;
}

/// The form invariant: the registry is well-formed, a focused index is in
/// range and points at the one widget that may report focus, and no widget
/// reports focus while no index is focused.
pub open spec fn form_inv<T: InteractiveFormHooks>(form: &T) -> bool {
    &&& form.hooks_inv()
    &&& match form.focused_idx() {
        Some(i) => (i as nat) < form.widgets().len() && (form.widgets()[i as int].obs().focused
            == form.widgets()[i as int].obs().can_take_focus) && (forall|j: int|
            0 <= j < form.widgets().len() && j != i as int ==> !(#[trigger] form.widgets()[j]).obs().focused),
        None => forall|j: int|
            0 <= j < form.widgets().len() ==> !(#[trigger] form.widgets()[j]).obs().focused,
    }
}

/// The behaviour every form gets from its registry: event routing to the
/// focused widget, and circular focus traversal that exits to "no focus" at
/// either end.
pub trait InteractiveForm: InteractiveFormHooks {
    /// Route an event to the focused widget and report its outcome. With no
    /// focus, or a focused index pointing at no field, nothing is touched
    /// and the event bubbles to the caller.
    fn handle_event(&mut self, event: Event) -> (r: InteractionOutcome)
        requires
            old(self).hooks_inv(),
        ensures
            final(self).hooks_inv(),
            final(self).focused_idx() == old(self).focused_idx(),
            final(self).widgets().len() == old(self).widgets().len(),
            match old(self).focused_idx() {
                None => r == InteractionOutcome::Bubble && *final(self) == *old(self),
                Some(i) => if (i as nat) < old(self).widgets().len() {
                    ({
                        let pre = old(self).widgets()[i as int];
                        let post = final(self).widgets()[i as int];
                        &&& final(self).widgets() == old(self).widgets().update(i as int, post)
                        &&& pre.event_transition(event, post, r)
                        &&& post.obs().focused == pre.obs().focused
                        &&& post.obs().can_take_focus == pre.obs().can_take_focus
                        &&& post.obs().changed == (r == InteractionOutcome::Consumed)
                    })
                } else {
                    r == InteractionOutcome::Bubble && *final(self) == *old(self)
                },
            },
            form_inv(old(self)) ==> form_inv(final(self)),
    ;

    /// Move focus to the next field: from no focus to the first field, off
    /// the last field to no focus. The outgoing field is unfocused, then the
    /// incoming field focused; no other field is touched.
    fn focus_next_input(&mut self)
        requires
            form_inv(old(self)),
        ensures
            form_inv(final(self)),
            final(self).widgets().len() == old(self).widgets().len(),
            final(self).focused_idx() == spec_focus_next(
                old(self).widgets().len(),
                old(self).focused_idx(),
            ),
            forall|j: int|
                0 <= j < old(self).widgets().len() && !points_at(old(self).focused_idx(), j)
                    && !points_at(final(self).focused_idx(), j) ==> final(self).widgets()[j] == old(
                    self,
                ).widgets()[j],
            forall|j: int|
                0 <= j < old(self).widgets().len() ==> (#[trigger] final(self).widgets()[j]).obs().can_take_focus
                    == old(self).widgets()[j].obs().can_take_focus && final(self).widgets()[j].obs().changed
                    == old(self).widgets()[j].obs().changed,
            match old(self).focused_idx() {
                Some(i) => (i as nat) < old(self).widgets().len()
                    ==> old(self).widgets()[i as int].focus_only_transition(
                    final(self).widgets()[i as int],
                ),
                None => true,
            },
            match final(self).focused_idx() {
                Some(j) => old(self).widgets()[j as int].focus_only_transition(
                    final(self).widgets()[j as int],
                ),
                None => true,
            },
    ;

    /// Move focus to the previous field: from no focus to the last field,
    /// off the first field to no focus. The outgoing field is unfocused,
    /// then the incoming field focused; no other field is touched.
    fn focus_prev_input(&mut self)
        requires
            form_inv(old(self)),
        ensures
            form_inv(final(self)),
            final(self).widgets().len() == old(self).widgets().len(),
            final(self).focused_idx() == spec_focus_prev(
                old(self).widgets().len(),
                old(self).focused_idx(),
            ),
            forall|j: int|
                0 <= j < old(self).widgets().len() && !points_at(old(self).focused_idx(), j)
                    && !points_at(final(self).focused_idx(), j) ==> final(self).widgets()[j] == old(
                    self,
                ).widgets()[j],
            forall|j: int|
                0 <= j < old(self).widgets().len() ==> (#[trigger] final(self).widgets()[j]).obs().can_take_focus
                    == old(self).widgets()[j].obs().can_take_focus && final(self).widgets()[j].obs().changed
                    == old(self).widgets()[j].obs().changed,
            match old(self).focused_idx() {
                Some(i) => (i as nat) < old(self).widgets().len()
                    ==> old(self).widgets()[i as int].focus_only_transition(
                    final(self).widgets()[i as int],
                ),
                None => true,
            },
            match final(self).focused_idx() {
                Some(j) => old(self).widgets()[j as int].focus_only_transition(
                    final(self).widgets()[j as int],
                ),
                None => true,
            },
    ;

    /// Is any field focused?
    fn is_focused(&self) -> (r: bool)
        ensures
            r == (self.focused_idx() matches Some(_)),
    ;

    /// The focused widget's state, or `None` when no field is focused or the
    /// focused index points at no field.
    fn focused_input(&self) -> (r: Option<&Self::Widget>)
        ensures
            match self.focused_idx() {
                Some(i) => match r {
                    Some(w) => (i as nat) < self.widgets().len() && *w == self.widgets()[i as int],
                    None => i as nat >= self.widgets().len(),
                },
                None => r matches None,
            },
    ;

    /// Mutable access to the focused widget's state, or `None` when no
    /// field is focused or the focused index points at no field.
    fn focused_input_mut(&mut self) -> (r: Option<&mut Self::Widget>)
        requires
            old(self).hooks_inv(),
        ensures
            match r {
                Some(w) => match old(self).focused_idx() {
                    Some(i) => (i as nat) < old(self).widgets().len() && *w == old(self).widgets()[
                        i as int
                    ] && (*w).inv() && final(self).widgets() == old(self).widgets().update(
                        i as int,
                        *final(w),
                    ) && final(self).focused_idx() == old(self).focused_idx() && ((*final(w)).inv()
                        ==> final(self).hooks_inv()),
                    None => false,
                },
                None => *final(self) == *old(self) && match old(self).focused_idx() {
                    Some(i) => (i as nat) >= old(self).widgets().len(),
                    None => true,
                },
            },
    ;

    /// Unfocus the focused field, if any, and clear the focused index;
    /// idempotent.
    fn unfocus_all(&mut self)
        requires
            form_inv(old(self)),
        ensures
            form_inv(final(self)),
            final(self).widgets().len() == old(self).widgets().len(),
            final(self).focused_idx() matches None,
            forall|j: int|
                0 <= j < final(self).widgets().len() ==> !(#[trigger] final(self).widgets()[j]).obs().focused,
            forall|j: int|
                0 <= j < old(self).widgets().len() && !points_at(old(self).focused_idx(), j)
                    ==> final(self).widgets()[j] == old(self).widgets()[j],
            match old(self).focused_idx() {
                Some(i) => (i as nat) < old(self).widgets().len()
                    ==> old(self).widgets()[i as int].focus_only_transition(
                    final(self).widgets()[i as int],
                ),
                None => true,
            },
            match final(self).focused_idx() {
                Some(j) => old(self).widgets()[j as int].focus_only_transition(
                    final(self).widgets()[j as int],
                ),
                None => true,
            },
    ;
}

impl<T: InteractiveFormHooks> InteractiveForm for T {
    fn handle_event(&mut self, event: Event) -> (r: InteractionOutcome) {
        let cur = self.focused_state_idx();
        match cur {
            None => InteractionOutcome::Bubble,
            Some(idx) => match self.input_state_at_mut(idx) {
                Some(state) => state.handle_event(event),
                None => InteractionOutcome::Bubble,
            },
        }
    }

    fn focus_next_input(&mut self) {
        let n = self.input_states_len();
        let cur = self.focused_state_idx();
        let new_idx: Option<usize> = match cur {
            Some(idx) => {
                match self.input_state_at_mut(idx) {
                    Some(state) => state.unfocus(),
                    None => {},
                }
                if idx + 1 == n {
                    None
                } else {
                    Some(idx + 1)
                }
            },
            None => if n == 0 {
                None
            } else {
                Some(0)
            },
        };
        self.set_focused_state_idx(new_idx);
        match new_idx {
            Some(j) => match self.input_state_at_mut(j) {
                Some(state) => state.focus(),
                None => {},
            },
            None => {},
        }
    }

    fn focus_prev_input(&mut self) {
        let n = self.input_states_len();
        let cur = self.focused_state_idx();
        let new_idx: Option<usize> = match cur {
            Some(idx) => {
                match self.input_state_at_mut(idx) {
                    Some(state) => state.unfocus(),
                    None => {},
                }
                if idx == 0 {
                    None
                } else {
                    Some(idx - 1)
                }
            },
            None => if n == 0 {
                None
            } else {
                Some(n - 1)
            },
        };
        self.set_focused_state_idx(new_idx);
        match new_idx {
            Some(j) => match self.input_state_at_mut(j) {
                Some(state) => state.focus(),
                None => {},
            },
            None => {},
        }
    }

    fn is_focused(&self) -> (r: bool) {
        self.focused_state_idx().is_some()
    }

    fn focused_input(&self) -> (r: Option<&Self::Widget>) {
        match self.focused_state_idx() {
            Some(idx) => self.input_state_at(idx),
            None => None,
        }
    }

    fn focused_input_mut(&mut self) -> (r: Option<&mut Self::Widget>) {
        match self.focused_state_idx() {
            Some(idx) => self.input_state_at_mut(idx),
            None => None,
        }
    }

    fn unfocus_all(&mut self) {
        match self.focused_state_idx() {
            Some(idx) => match self.input_state_at_mut(idx) {
                Some(state) => state.unfocus(),
                None => {},
            },
            None => {},
        }
        self.set_focused_state_idx(None);
    }
}

} // verus!
