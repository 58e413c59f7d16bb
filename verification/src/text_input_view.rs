//! Display configuration for a text input widget, and the decisions the
//! renderer needs: what to show, in which style, and where the terminal
//! cursor goes.
//!
//! Drawing itself — blocks, styles, colours, the terminal backend — is the
//! host application's business; this module only fixes the choices that
//! depend on the widget's state, in [`TextInput::render_plan`].

use vstd::prelude::*;

use crate::text_input::TextInputState;

verus! {

/// Horizontal alignment of the rendered text.
#[derive(Debug, Clone, Copy, PartialEq, Eq, Structural)]
pub enum Alignment {
    Left,
    Center,
    Right,
}

/// Configuration of one text input widget's rendering.
pub struct TextInput {
    // What to show while the value is empty.
    placeholder: Option<String>,
    // Render as a read-only input: never show a cursor in it.
    disable_cursor: bool,
    // Where to align the displayed text.
    alignment: Alignment,
}

impl TextInput {
    /// The configured placeholder text.
    pub closed spec fn spec_placeholder(&self) -> Option<Seq<char>> {
        match self.placeholder {
            Some(p) => Some(p@),
            None => None,
        }
    }

    /// Whether the cursor is never to be shown.
    pub closed spec fn spec_disable_cursor(&self) -> bool {
        self.disable_cursor
    }

    /// The configured alignment.
    pub closed spec fn spec_alignment(&self) -> Alignment {
        self.alignment
    }

    /// The default configuration: no placeholder, cursor enabled, text
    /// aligned left.
    pub fn new() -> (r: TextInput)
        ensures
            r.spec_placeholder() matches None,
            !r.spec_disable_cursor(),
            r.spec_alignment() == Alignment::Left,
    {
        TextInput { placeholder: None, disable_cursor: false, alignment: Alignment::Left }
    }

    /// Never show a cursor in this input (for read-only or button-like
    /// inputs).
    pub fn disable_cursor(self, disable_cursor: bool) -> (r: TextInput)
        ensures
            r.spec_disable_cursor() == disable_cursor,
            r.spec_placeholder() == self.spec_placeholder(),
            r.spec_alignment() == self.spec_alignment(),
    {
        TextInput { disable_cursor, ..self }
    }

    /// Align the displayed text.
    pub fn alignment(self, alignment: Alignment) -> (r: TextInput)
        ensures
            r.spec_alignment() == alignment,
            r.spec_placeholder() == self.spec_placeholder(),
            r.spec_disable_cursor() == self.spec_disable_cursor(),
    {
        TextInput { alignment, ..self }
    }

    /// Show `placeholder_text` while the value is empty.
    pub fn placeholder_text(self, placeholder_text: &str) -> (r: TextInput)
        ensures
            r.spec_placeholder() == Some(placeholder_text@),
            r.spec_disable_cursor() == self.spec_disable_cursor(),
            r.spec_alignment() == self.spec_alignment(),
    {
        TextInput { placeholder: Some(placeholder_text.to_owned()), ..self }
    }

    /// Show `placeholder` while the value is empty.
    pub fn placeholder(self, placeholder: String) -> (r: TextInput)
        ensures
            r.spec_placeholder() == Some(placeholder@),
            r.spec_disable_cursor() == self.spec_disable_cursor(),
            r.spec_alignment() == self.spec_alignment(),
    {
        TextInput { placeholder: Some(placeholder), ..self }
    }

    /// The configured placeholder, for the renderer.
    pub fn placeholder_ref(&self) -> (r: Option<&String>)
        ensures
            match r {
                Some(p) => self.spec_placeholder() == Some(p@),
                None => self.spec_placeholder() matches None,
            },
    {
        match &self.placeholder {
            Some(p) => Some(p),
            None => None,
        }
    }

    /// Whether the cursor is never to be shown, for the renderer.
    pub fn cursor_disabled(&self) -> (r: bool)
        ensures
            r == self.spec_disable_cursor(),
    {
        self.disable_cursor
    }

    /// The configured alignment, for the renderer.
    pub fn get_alignment(&self) -> (r: Alignment)
        ensures
            r == self.spec_alignment(),
    {
        self.alignment
    }

    /// The state-dependent decisions for drawing `state` under this
    /// configuration: focused inputs are drawn in the focused style; an
    /// empty value shows the placeholder; the terminal cursor appears at the
    /// widget's cursor position exactly when the input is focused and the
    /// cursor is not disabled.
    pub fn render_plan(&self, state: &TextInputState) -> (r: RenderPlan)
        ensures
            r.use_focused_style == state@.focused,
            r.show_placeholder == (state@.value.len() == 0),
            match r.cursor_position {
                Some(c) => state@.focused && !self.spec_disable_cursor() && c as nat
                    == state@.cursor,
                None => !(state@.focused && !self.spec_disable_cursor()),
            },
    {
        let focused = state.is_focused();
        let empty = state.get_value().is_empty();
        let cursor_position = if focused && !self.disable_cursor {
            Some(state.get_cursor_pos())
        } else {
            None
        };
        RenderPlan { use_focused_style: focused, show_placeholder: empty, cursor_position }
    }
}

impl Default for TextInput {
    /// Same as [`TextInput::new`].
    fn default() -> (r: TextInput)
        ensures
            r.spec_placeholder() matches None,
            !r.spec_disable_cursor(),
            r.spec_alignment() == Alignment::Left,
    {
        TextInput::new()
    }
}

/// What the renderer must do for one text input, given its state.
pub struct RenderPlan {
    /// Draw block and text in the focused style.
    pub use_focused_style: bool,
    /// The value is empty: show the placeholder (or nothing).
    pub show_placeholder: bool,
    /// The character offset of the terminal cursor from the text area's
    /// left edge; `None` when no cursor is to be shown.
    pub cursor_position: Option<usize>,
}

} // verus!
