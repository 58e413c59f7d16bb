//! Scenarios for the form engine: focus traversal, event routing and the
//! declarative registry.

use tui_forms::events::{Event, KeyCode, KeyPress};
use tui_forms::form::{InteractiveForm, InteractiveFormHooks};
use tui_forms::registry::FormRegistry;
use tui_forms::text_input::TextInputState;
use tui_forms::widget_state::InteractiveWidgetState;

fn plain_key(code: KeyCode) -> Event {
    Event::Key(KeyPress { code, ctrl: false, alt: false })
}

fn abc_form() -> FormRegistry<TextInputState> {
    FormRegistry::new()
        .with_field("a", TextInputState::default())
        .with_field("b", TextInputState::default())
        .with_field("c", TextInputState::default())
}

fn focused_name(form: &FormRegistry<TextInputState>) -> Option<String> {
    let idx = form.focused_state_idx()?;
    let names: Vec<String> = form.named_list().iter().map(|(n, _)| n.to_string()).collect();
    names.get(idx).cloned()
}

#[test]
fn focus_walk_scenario() {
    let mut form = abc_form();
    assert_eq!(None, form.focused_state_idx());

    form.focus_next_input();
    assert_eq!(Some("a".to_string()), focused_name(&form));
    form.focus_next_input();
    assert_eq!(Some("b".to_string()), focused_name(&form));
    form.focus_prev_input();
    assert_eq!(Some("a".to_string()), focused_name(&form));
    form.focus_prev_input();
    assert_eq!(None, focused_name(&form));
    form.focus_prev_input();
    assert_eq!(Some("c".to_string()), focused_name(&form));
}

#[test]
fn focus_cycle_returns_to_none() {
    let mut form = abc_form();
    let n = form.input_states_len();
    for _ in 0..n + 1 {
        form.focus_next_input();
    }
    assert_eq!(None, form.focused_state_idx());
    form.focus_next_input();
    assert_eq!(Some(0), form.focused_state_idx());
}

#[test]
fn focus_next_prev_are_inverses() {
    // From every reachable focus state of a three-field form.
    for steps in 0..4 {
        let mut form = abc_form();
        for _ in 0..steps {
            form.focus_next_input();
        }
        let start = form.focused_state_idx();
        form.focus_next_input();
        form.focus_prev_input();
        assert_eq!(start, form.focused_state_idx());
        form.focus_prev_input();
        form.focus_next_input();
        assert_eq!(start, form.focused_state_idx());
    }
}

#[test]
fn at_most_one_field_focused() {
    let mut form = abc_form();
    for _ in 0..8 {
        form.focus_next_input();
        let focused_count = form
            .named_list()
            .iter()
            .filter(|(_, state)| state.is_focused())
            .count();
        assert!(focused_count <= 1);
        match form.focused_state_idx() {
            Some(idx) => {
                assert_eq!(1, focused_count);
                assert!(form.input_state_at(idx).unwrap().is_focused());
            }
            None => assert_eq!(0, focused_count),
        }
    }
}

#[test]
fn unfocused_form_bubbles_and_stays_put() {
    let mut form = abc_form();
    let outcome = form.handle_event(plain_key(KeyCode::Char('x')));
    assert!(outcome.is_bubble());
    assert_eq!(None, form.focused_state_idx());
    for (_, state) in form.named_list() {
        assert_eq!("", state.get_value());
        assert_eq!(0, state.get_cursor_pos());
        assert!(!state.is_focused());
        assert!(!state.changed());
    }
}

#[test]
fn events_route_to_the_focused_field_only() {
    let mut form = abc_form();
    form.focus_next_input();
    form.focus_next_input();
    // "b" is focused; typing lands there and nowhere else.
    assert!(form.handle_event(plain_key(KeyCode::Char('h'))).is_consumed());
    assert!(form.handle_event(plain_key(KeyCode::Char('i'))).is_consumed());
    assert_eq!("", form.input_state_at(0).unwrap().get_value());
    assert_eq!("hi", form.input_state_at(1).unwrap().get_value());
    assert_eq!("", form.input_state_at(2).unwrap().get_value());
    // An event the focused widget does not recognise bubbles.
    assert!(form.handle_event(plain_key(KeyCode::Esc)).is_bubble());
    assert!(form.handle_event(Event::Other).is_bubble());
}

#[test]
fn focused_input_mut_reaches_the_focused_field() {
    let mut form = abc_form();
    assert!(form.focused_input_mut().is_none());
    form.focus_next_input();
    if let Some(state) = form.focused_input_mut() {
        state.set_value("edited");
    }
    assert_eq!("edited", form.input_state_at(0).unwrap().get_value());
    assert_eq!("", form.input_state_at(1).unwrap().get_value());
}

#[test]
fn unfocus_all_clears_focus() {
    let mut form = abc_form();
    form.unfocus_all();
    assert_eq!(None, form.focused_state_idx());
    form.focus_next_input();
    assert!(form.is_focused());
    form.unfocus_all();
    assert_eq!(None, form.focused_state_idx());
    assert!(!form.is_focused());
    for (_, state) in form.named_list() {
        assert!(!state.is_focused());
    }
}

#[test]
fn focused_input_follows_the_index() {
    let mut form = abc_form();
    assert!(form.focused_input().is_none());
    form.focus_next_input();
    form.handle_event(plain_key(KeyCode::Char('q')));
    let state = form.focused_input().expect("a field is focused");
    assert_eq!("q", state.get_value());
}

#[test]
fn empty_form_keeps_no_focus() {
    let mut form: FormRegistry<TextInputState> = FormRegistry::new();
    assert_eq!(0, form.input_states_len());
    assert_eq!(None, form.focused_state_idx());
    form.focus_next_input();
    assert_eq!(None, form.focused_state_idx());
    form.focus_prev_input();
    assert_eq!(None, form.focused_state_idx());
    form.set_focused_state_idx(Some(0));
    assert_eq!(None, form.focused_state_idx());
    assert!(form.handle_event(plain_key(KeyCode::Char('x'))).is_bubble());
}

#[test]
fn registry_length_and_bounds() {
    let form = abc_form();
    assert_eq!(3, form.input_states_len());
    for idx in 0..3 {
        assert!(form.input_state_at(idx).is_some());
    }
    assert!(form.input_state_at(3).is_none());
    assert!(form.input_state_at(100).is_none());

    let empty: FormRegistry<TextInputState> = FormRegistry::new();
    assert_eq!(0, empty.input_states_len());
    assert!(empty.input_state_at(0).is_none());
}

#[test]
fn named_list_round_trip() {
    let empty: FormRegistry<TextInputState> = FormRegistry::new();
    assert_eq!(0, empty.named_list().len());

    let one = FormRegistry::new().with_field("only", TextInputState::default());
    let listed: Vec<String> = one.named_list().iter().map(|(n, _)| n.to_string()).collect();
    assert_eq!(vec!["only".to_string()], listed);

    let many = FormRegistry::new()
        .with_field("first", TextInputState::with_value("1"))
        .with_field("second", TextInputState::default())
        .with_field("third", TextInputState::with_value("3"))
        .with_field("fourth", TextInputState::default());
    let listed: Vec<String> = many.named_list().iter().map(|(n, _)| n.to_string()).collect();
    assert_eq!(
        vec![
            "first".to_string(),
            "second".to_string(),
            "third".to_string(),
            "fourth".to_string()
        ],
        listed
    );
    assert_eq!("1", many.named_list()[0].1.get_value());
    assert_eq!("3", many.named_list()[2].1.get_value());
}
