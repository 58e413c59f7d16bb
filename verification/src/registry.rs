//! A form registry built from a declarative field list at run time.
//!
//! The registry holds named widget states in declaration order, never
//! reorders or resizes them after construction, and keeps one extra slot for
//! the focused index. It implements [`InteractiveFormHooks`], so the whole
//! engine of [`crate::form`] works on it.
//!
//! A field with no special starting value is declared with its widget type's
//! default state; one with a starting value is declared with a state built
//! from that value (for a text input, `TextInputState::with_value`).

use vstd::prelude::*;

use crate::form::{form_inv, points_at, InteractiveFormHooks};
use crate::widget_state::InteractiveWidgetState;

verus! {

/// An ordered collection of named widget states plus the focused-index slot.
pub struct FormRegistry<W: InteractiveWidgetState> {
    // Field names, in declaration order.
    names: Vec<String>,
    // One widget state per field, in the same order.
    states: Vec<W>,
    // Which field is focused; the hidden slot appended to the field list.
    focused_state_idx: Option<usize>,
}

impl<W: InteractiveWidgetState> FormRegistry<W> {
    /// The field names, in declaration order.
    pub closed spec fn spec_names(&self) -> Seq<Seq<char>> {
        self.names@.map_values(|n: String| n@)
    }

    /// An empty form: no fields, nothing focused.
    pub fn new() -> (r: FormRegistry<W>)
        ensures
            r.widgets().len() == 0,
            r.spec_names().len() == 0,
            r.focused_idx() matches None,
            form_inv(&r),
    {
        FormRegistry { names: Vec::new(), states: Vec::new(), focused_state_idx: None }
    }

    /// Declare one more field: append `state` under `name`. Fields enter a
    /// form unfocused; order of declaration is the order of navigation. A
    /// declaration that repeats a field name is malformed, as is declaring a
    /// field that already holds focus: both are ruled out at declaration,
    /// not detected later.
    pub fn with_field(self, name: &str, state: W) -> (r: FormRegistry<W>)
        requires
            form_inv(&self),
            !self.spec_names().contains(name@),
            state.inv(),
            !state.obs().focused,
        ensures
            form_inv(&r),
            r.widgets() == self.widgets().push(state),
            r.spec_names() == self.spec_names().push(name@),
            r.focused_idx() == self.focused_idx(),
    {
        let ghost orig = self;
        let ghost new_state = state;
        let FormRegistry { mut names, mut states, focused_state_idx } = self;
        names.push(name.to_owned());
        states.push(state);
        let result = FormRegistry { names, states, focused_state_idx };
        proof {
            assert(result.names@.map_values(|n: String| n@) =~= orig.spec_names().push(name@));
            assert forall|j: int| 0 <= j < result.states@.len() implies (
            #[trigger] result.states@[j]).inv() by {
                if j < orig.states@.len() {
                    assert(result.states@[j] == orig.states@[j]);
                } else {
                    assert(result.states@[j] == new_state);
                }
            }
            assert forall|j: int|
                0 <= j < result.widgets().len() && !points_at(
                    orig.focused_idx(),
                    j,
                ) implies !(#[trigger] result.widgets()[j]).obs().focused by {
                if j < orig.widgets().len() {
                    assert(result.widgets()[j] == orig.widgets()[j]);
                } else {
                    assert(result.widgets()[j] == new_state);
                }
            }
            match orig.focused_idx() {
                Some(i) => {
                    assert(result.widgets()[i as int] == orig.widgets()[i as int]);
                },
                None => {},
            }
        }
        result
    }

    /// The declared fields as `(name, state)` pairs, in declaration order,
    /// with no omissions.
    pub fn named_list(&self) -> (r: Vec<(&str, &W)>)
        requires
            self.hooks_inv(),
        ensures
            r@.len() == self.spec_names().len(),
            forall|i: int|
                0 <= i < r@.len() ==> (#[trigger] r@[i]).0@ == self.spec_names()[i] && *r@[i].1
                    == self.widgets()[i],
    {
        let mut out: Vec<(&str, &W)> = Vec::new();
        let n = self.names.len();
        let mut i: usize = 0;
        while i < n
            invariant
                self.hooks_inv(),
                i <= n,
                n == self.names@.len(),
                out@.len() == i as nat,
                forall|k: int|
                    0 <= k < i as int ==> (#[trigger] out@[k]).0@ == self.spec_names()[k]
                        && *out@[k].1 == self.widgets()[k],
            decreases n - i,
        {
            out.push((self.names[i].as_str(), &self.states[i]));
            i = i + 1;
        }
        out
    }
}

impl<W: InteractiveWidgetState> InteractiveFormHooks for FormRegistry<W> {
    type Widget = W;

    closed spec fn widgets(&self) -> Seq<W> {
        self.states@
    }

    closed spec fn focused_idx(&self) -> Option<usize> {
        self.focused_state_idx
    }

    closed spec fn hooks_inv(&self) -> bool {
        &&& self.names@.len() == self.states@.len()
        &&& forall|i: int| 0 <= i < self.states@.len() ==> (#[trigger] self.states@[i]).inv()
    }

    fn focused_state_idx(&self) -> (r: Option<usize>) {
        self.focused_state_idx
    }

    fn set_focused_state_idx(&mut self, idx: Option<usize>) {
        if self.states.len() == 0 {
            self.focused_state_idx = None;
        } else {
            self.focused_state_idx = idx;
        }
    }

    fn input_states_len(&self) -> (n: usize) {
        self.states.len()
    }

    fn input_state_at(&self, idx: usize) -> (r: Option<&W>) {
        if idx < self.states.len() {
            Some(&self.states[idx])
        } else {
            None
        }
    }

    fn input_state_at_mut(&mut self, idx: usize) -> (r: Option<&mut W>) {
        if idx < self.states.len() {
            Some(&mut self.states[idx])
        } else {
            None
        }
    }
}

} // verus!
