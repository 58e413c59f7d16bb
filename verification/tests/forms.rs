//! Forms declared as plain structs with one widget-state field per input,
//! a hidden focused-index slot, and the glue methods a registry provides —
//! the shape the declarative form declarations expand to.

use tui_forms::form::{InteractiveForm, InteractiveFormHooks};
use tui_forms::struct_form::MyForm;
use tui_forms::text_input::TextInputState;

#[allow(dead_code)]
struct Foo {
    bar: TextInputState,
    quux: TextInputState,
    whup: TextInputState,
    _focused_state_idx: Option<usize>,
}

impl Default for Foo {
    fn default() -> Foo {
        Foo {
            bar: TextInputState::with_value("baz"),
            quux: TextInputState::with_value("smaz"),
            whup: TextInputState::default(),
            _focused_state_idx: None,
        }
    }
}

struct Empty {
    _focused_state_idx: Option<usize>,
}

impl Empty {
    fn focused_state_idx(&self) -> Option<usize> {
        self._focused_state_idx
    }

    fn input_states_len(&self) -> usize {
        0
    }
}

impl Default for Empty {
    fn default() -> Empty {
        Empty { _focused_state_idx: None }
    }
}

#[allow(dead_code)]
struct WithOneField {
    pub foo: TextInputState,
    _focused_state_idx: Option<usize>,
}

impl WithOneField {
    fn input_states_len(&self) -> usize {
        1
    }
}

impl Default for WithOneField {
    fn default() -> WithOneField {
        WithOneField { foo: TextInputState::with_value("foo"), _focused_state_idx: None }
    }
}

struct EmptyNamed {
    _focused_state_idx: Option<usize>,
}

impl EmptyNamed {
    fn focused_state_idx(&self) -> Option<usize> {
        self._focused_state_idx
    }

    fn input_states_len(&self) -> usize {
        0
    }
}

impl Default for EmptyNamed {
    fn default() -> EmptyNamed {
        EmptyNamed { _focused_state_idx: None }
    }
}

#[allow(dead_code)]
struct EmptyUnamed(Option<usize>);

impl Default for EmptyUnamed {
    fn default() -> EmptyUnamed {
        EmptyUnamed(None)
    }
}

struct EmptyUnit;

impl Default for EmptyUnit {
    fn default() -> EmptyUnit {
        EmptyUnit
    }
}

#[allow(dead_code)]
struct OneFieldNamed {
    pub foo: TextInputState,
    _focused_state_idx: Option<usize>,
}

impl OneFieldNamed {
    fn input_states_len(&self) -> usize {
        1
    }
}

impl Default for OneFieldNamed {
    fn default() -> OneFieldNamed {
        OneFieldNamed { foo: TextInputState::with_value("foo"), _focused_state_idx: None }
    }
}

#[allow(dead_code)]
struct OneFieldUnnamed(TextInputState, Option<usize>);

impl Default for OneFieldUnnamed {
    fn default() -> OneFieldUnnamed {
        OneFieldUnnamed(TextInputState::with_value("bar"), None)
    }
}

#[test]
fn macro_impl_test_works() {
    let form = Foo::default();
    assert_eq!("baz", form.bar.get_value());
    assert_eq!("smaz", form.quux.get_value());
    assert_eq!("", form.whup.get_value());
}

#[test]
fn test_defaults() {
    EmptyUnit::default();
    EmptyNamed::default();
    EmptyUnamed::default();
    OneFieldNamed::default();
    OneFieldUnnamed::default();
}

#[test]
fn macro_test_test_works() {
    let form = EmptyNamed::default();
    let focused = form.focused_state_idx();
    assert!(focused.is_none());
    assert_eq!(0, form.input_states_len());

    let form = OneFieldNamed::default();
    assert_eq!(1, form.input_states_len());
    assert_eq!("foo", form.foo.get_value());
}

#[test]
fn test_macro_test_works() {
    let form = Empty::default();
    let focused = form.focused_state_idx();
    assert!(focused.is_none());
    assert_eq!(0, form.input_states_len());

    let form = WithOneField::default();
    assert_eq!(1, form.input_states_len());
}

#[test]
fn struct_backed_form_glue_works() {
    let mut form = MyForm::default();
    assert_eq!("FooDefault", form.foo.get_value());
    assert_eq!("", form.bar.get_value());
    assert_eq!(2, form.input_states_len());
    assert!(form.focused_state_idx().is_none());

    let names: Vec<&str> = form.as_list().iter().map(|(n, _)| *n).collect();
    assert_eq!(vec!["foo", "bar"], names);

    form.focus_next_input();
    assert_eq!(Some(0), form.focused_state_idx());
    assert!(form.foo.is_focused());
    assert!(!form.bar.is_focused());
    form.focus_next_input();
    assert!(!form.foo.is_focused());
    assert!(form.bar.is_focused());
    form.focus_next_input();
    assert_eq!(None, form.focused_state_idx());
    assert!(form.input_state_at(2).is_none());
}
