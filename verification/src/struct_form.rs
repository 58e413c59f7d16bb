//! The registry glue for a form backed by a struct's own fields, written
//! out in full for a two-field form.
//!
//! A form declared as a struct of named widget-state fields gets, per field,
//! one arm of an index comparison in the accessors — direct field access, no
//! vector indirection — plus one hidden slot for the focused index appended
//! to the declared fields, and a `Default` that initialises a field with a
//! declared default value by converting it and every other field by its
//! type's own default constructor. [`MyForm`] shows that shape; a form with
//! other fields follows it arm by arm.

use vstd::prelude::*;

use crate::form::{form_inv, InteractiveFormHooks};
use crate::text_input::TextInputState;
use crate::widget_state::InteractiveWidgetState;

verus! {

/// A form of two text inputs, `foo` and `bar`, with the glue a declarative
/// form declaration expands to.
pub struct MyForm {
    pub foo: TextInputState,
    pub bar: TextInputState,
    /// The hidden slot appended to the declared fields.
    pub _focused_state_idx: Option<usize>,
}

impl Default for MyForm {
    /// `foo` starts with its declared default value; `bar` with its type's
    /// default; nothing is focused.
    fn default() -> (r: MyForm)
        ensures
            form_inv(&r),
            r.widgets().len() == 2,
            r.focused_idx() matches None,
            r.foo@.value == "FooDefault"@,
            r.bar@.value == Seq::<char>::empty(),
    {
        let r = MyForm {
            foo: TextInputState::with_value("FooDefault"),
            bar: TextInputState::default(),
            _focused_state_idx: None,
        };
        proof {
            assert(r.widgets()[0] == r.foo);
            assert(r.widgets()[1] == r.bar);
        }
        r
    }
}

impl MyForm {
    /// The fields as `(name, state)` pairs, in declaration order, named by
    /// their field identifiers.
    pub fn as_list(&self) -> (r: [(&str, &TextInputState); 2])
        ensures
            r@.len() == 2,
            r@[0].0@ == "foo"@,
            *r@[0].1 == self.widgets()[0],
            r@[1].0@ == "bar"@,
            *r@[1].1 == self.widgets()[1],
    {
        let r = [("foo", &self.foo), ("bar", &self.bar)];
        proof {
            reveal_strlit("foo");
            reveal_strlit("bar");
        }
        r
    }
}

impl InteractiveFormHooks for MyForm {
    type Widget = TextInputState;

    open spec fn widgets(&self) -> Seq<TextInputState> {
        seq![self.foo, self.bar]
    }

    open spec fn focused_idx(&self) -> Option<usize> {
        self._focused_state_idx
    }

    open spec fn hooks_inv(&self) -> bool {
        self.foo.inv() && self.bar.inv()
    }

    fn focused_state_idx(&self) -> (r: Option<usize>) {
        self._focused_state_idx
    }

    fn set_focused_state_idx(&mut self, idx: Option<usize>) {
        self._focused_state_idx = idx;
    }

    fn input_states_len(&self) -> (n: usize) {
        2
    }

    fn input_state_at(&self, idx: usize) -> (r: Option<&TextInputState>) {
        if idx == 0 {
            return Some(&self.foo);
        }
        if idx == 1 {
            return Some(&self.bar);
        }
        None
    }

    fn input_state_at_mut(&mut self, idx: usize) -> (r: Option<&mut TextInputState>) {
        if idx == 0 {
            return Some(&mut self.foo);
        }
        if idx == 1 {
            return Some(&mut self.bar);
        }
        None
    }
}

} // verus!
