//! State of a single-line text input widget: the entered value, the cursor
//! position within it, and the focus flags.
//!
//! The value is modelled as a sequence of characters; the cursor is a
//! character index in `0 ..= value.len()`. Editing recognises a readline
//! subset: character insertion, backspace and delete, left and right cursor
//! movement, jump to start and end (ctrl+a / ctrl+e), delete to the start of
//! the current word (ctrl+w) and word-boundary jumps (alt+b / alt+f). Words
//! are runs of characters separated by spaces.

use vstd::prelude::*;
use vstd::string::*;

use crate::events::{Event, KeyCode, KeyPress};
use crate::widget_state::{InteractionOutcome, InteractiveWidgetState, WidgetObs};

verus! {

/// Is `c` a word separator? Words are runs of non-space characters.
pub open spec fn is_sep(c: char) -> bool {
    c == ' '
}

/// Walk left from position `i`, skipping separators.
pub open spec fn skip_sep_back(s: Seq<char>, i: nat) -> nat
    decreases i,
{
    if i > 0 && i <= s.len() && is_sep(s[i as int - 1]) {
        skip_sep_back(s, (i - 1) as nat)
    } else {
        i
    }
}

/// Walk left from position `i`, skipping word characters.
pub open spec fn skip_word_back(s: Seq<char>, i: nat) -> nat
    decreases i,
{
    if i > 0 && i <= s.len() && !is_sep(s[i as int - 1]) {
        skip_word_back(s, (i - 1) as nat)
    } else {
        i
    }
}

/// The start of the word the cursor sits at the end or in the middle of:
/// first skip separators leftwards, then word characters leftwards.
pub open spec fn prev_word_start(s: Seq<char>, i: nat) -> nat {
    skip_word_back(s, skip_sep_back(s, i))
}

/// Walk right from position `i`, skipping separators.
pub open spec fn skip_sep_fwd(s: Seq<char>, i: nat) -> nat
    decreases s.len() - i,
{
    if i < s.len() && is_sep(s[i as int]) {
        skip_sep_fwd(s, (i + 1) as nat)
    } else {
        i
    }
}

/// Walk right from position `i`, skipping word characters.
pub open spec fn skip_word_fwd(s: Seq<char>, i: nat) -> nat
    decreases s.len() - i,
{
    if i < s.len() && !is_sep(s[i as int]) {
        skip_word_fwd(s, (i + 1) as nat)
    } else {
        i
    }
}

/// The end of the word right of the cursor: first skip separators
/// rightwards, then word characters rightwards.
pub open spec fn next_word_end(s: Seq<char>, i: nat) -> nat {
    skip_word_fwd(s, skip_sep_fwd(s, i))
}

/// What one key press does to a value `v` and cursor `c` (for `c <= v.len()`):
/// the new value and cursor. A pair equal to the input means the key is not
/// recognised or had nothing to do.
pub open spec fn edit_key(v: Seq<char>, c: nat, k: KeyPress) -> (Seq<char>, nat) {
    if k.ctrl && !k.alt {
        match k.code {
            KeyCode::Char(ch) => if ch == 'a' {
                (v, 0 as nat)
            } else if ch == 'e' {
                (v, v.len())
            } else if ch == 'w' {
                (
                    v.subrange(0, prev_word_start(v, c) as int) + v.subrange(
                        c as int,
                        v.len() as int,
                    ),
                    prev_word_start(v, c),
                )
            } else {
                (v, c)
            },
            _ => (v, c),
        }
    } else if k.alt && !k.ctrl {
        match k.code {
            KeyCode::Char(ch) => if ch == 'b' {
                (v, prev_word_start(v, c))
            } else if ch == 'f' {
                (v, next_word_end(v, c))
            } else {
                (v, c)
            },
            _ => (v, c),
        }
    } else if !k.ctrl && !k.alt {
        match k.code {
            KeyCode::Char(ch) => (v.insert(c as int, ch), c + 1),
            KeyCode::Backspace => if c > 0 {
                (v.remove(c as int - 1), (c - 1) as nat)
            } else {
                (v, c)
            },
            KeyCode::Delete => if c < v.len() {
                (v.remove(c as int), c)
            } else {
                (v, c)
            },
            KeyCode::Left => if c > 0 {
                (v, (c - 1) as nat)
            } else {
                (v, c)
            },
            KeyCode::Right => if c < v.len() {
                (v, c + 1)
            } else {
                (v, c)
            },
            _ => (v, c),
        }
    } else {
        (v, c)
    }
}

/// What one event does to a value and cursor; events that are no key press
/// change nothing.
pub open spec fn edit(v: Seq<char>, c: nat, e: Event) -> (Seq<char>, nat) {
    match e {
        Event::Key(k) => edit_key(v, c, k),
        Event::Other => (v, c),
    }
}

/// Relies on `String::push`: appends the given character to the end of the
/// string.
pub assume_specification[ String::push ](s: &mut String, ch: char)
    ensures
        final(s)@ == old(s)@.push(ch),
;

proof fn lemma_skip_sep_back_le(s: Seq<char>, i: nat)
    ensures
        skip_sep_back(s, i) <= i,
    decreases i,
{
    if i > 0 && i <= s.len() && is_sep(s[i as int - 1]) {
        lemma_skip_sep_back_le(s, (i - 1) as nat);
    }
}

proof fn lemma_skip_word_back_le(s: Seq<char>, i: nat)
    ensures
        skip_word_back(s, i) <= i,
    decreases i,
{
    if i > 0 && i <= s.len() && !is_sep(s[i as int - 1]) {
        lemma_skip_word_back_le(s, (i - 1) as nat);
    }
}

/// The start of the previous word never lies right of the cursor.
proof fn lemma_prev_word_start_le(s: Seq<char>, i: nat)
    ensures
        prev_word_start(s, i) <= i,
{
    lemma_skip_sep_back_le(s, i);
    lemma_skip_word_back_le(s, skip_sep_back(s, i));
}

proof fn lemma_skip_sep_fwd_bounds(s: Seq<char>, i: nat)
    requires
        i <= s.len(),
    ensures
        i <= skip_sep_fwd(s, i) <= s.len(),
    decreases s.len() - i,
{
    if i < s.len() && is_sep(s[i as int]) {
        lemma_skip_sep_fwd_bounds(s, (i + 1) as nat);
    }
}

proof fn lemma_skip_word_fwd_bounds(s: Seq<char>, i: nat)
    requires
        i <= s.len(),
    ensures
        i <= skip_word_fwd(s, i) <= s.len(),
    decreases s.len() - i,
{
    if i < s.len() && !is_sep(s[i as int]) {
        lemma_skip_word_fwd_bounds(s, (i + 1) as nat);
    }
}

/// Where the word left of character position `from` starts in `s`.
fn scan_prev_word_start(s: &str, from: usize) -> (r: usize)
    requires
        from as nat <= s@.len(),
    ensures
        r as nat == prev_word_start(s@, from as nat),
        r <= from,
{
    let mut i: usize = from;
    while i > 0 && s.get_char(i - 1) == ' '
        invariant
            i <= from,
            from as nat <= s@.len(),
            skip_sep_back(s@, from as nat) == skip_sep_back(s@, i as nat),
        decreases i,
    {
        proof {
            assert(skip_sep_back(s@, i as nat) == skip_sep_back(s@, (i - 1) as nat));
        }
        i = i - 1;
    }
    assert(skip_sep_back(s@, i as nat) == i as nat);
    while i > 0 && s.get_char(i - 1) != ' '
        invariant
            i <= from,
            from as nat <= s@.len(),
            prev_word_start(s@, from as nat) == skip_word_back(s@, i as nat),
        decreases i,
    {
        proof {
            assert(skip_word_back(s@, i as nat) == skip_word_back(s@, (i - 1) as nat));
        }
        i = i - 1;
    }
    assert(skip_word_back(s@, i as nat) == i as nat);
    proof {
        lemma_prev_word_start_le(s@, from as nat);
    }
    i
}

/// Where the word right of character position `from` ends in `s`.
fn scan_next_word_end(s: &str, from: usize) -> (r: usize)
    requires
        from as nat <= s@.len(),
    ensures
        r as nat == next_word_end(s@, from as nat),
        from <= r,
        r as nat <= s@.len(),
{
    let len: usize = s.unicode_len();
    let mut i: usize = from;
    while i < len && s.get_char(i) == ' '
        invariant
            from <= i <= len,
            len as nat == s@.len(),
            skip_sep_fwd(s@, from as nat) == skip_sep_fwd(s@, i as nat),
        decreases len - i,
    {
        proof {
            assert(skip_sep_fwd(s@, i as nat) == skip_sep_fwd(s@, (i + 1) as nat));
        }
        i = i + 1;
    }
    assert(skip_sep_fwd(s@, i as nat) == i as nat);
    while i < len && s.get_char(i) != ' '
        invariant
            from <= i <= len,
            len as nat == s@.len(),
            next_word_end(s@, from as nat) == skip_word_fwd(s@, i as nat),
        decreases len - i,
    {
        proof {
            assert(skip_word_fwd(s@, i as nat) == skip_word_fwd(s@, (i + 1) as nat));
        }
        i = i + 1;
    }
    assert(skip_word_fwd(s@, i as nat) == i as nat);
    i
}

/// Mathematical model of a text input state.
pub struct TextModel {
    /// The entered text.
    pub value: Seq<char>,
    /// Character index in `0 ..= value.len()` where editing happens.
    pub cursor: nat,
    /// Whether the widget reports holding focus.
    pub focused: bool,
    /// Whether the widget may ever take focus.
    pub can_take_focus: bool,
    /// Whether the most recent event handled mutated value or cursor.
    pub changed: bool,
}

/// State backing one text input field.
pub struct TextInputState {
    // Underlying value of the text input field.
    value: String,
    // Character position in the value to insert / remove text at.
    cursor_pos: usize,
    // Has the input been given focus?
    focused: bool,
    // Can the input take focus? Read-only inputs set this false.
    can_take_focus: bool,
    // Did the input change when the last event was handled?
    changed: bool,
}

impl View for TextInputState {
    type V = TextModel;

    closed spec fn view(&self) -> TextModel {
        TextModel {
            value: self.value@,
            cursor: self.cursor_pos as nat,
            focused: self.can_take_focus && self.focused,
            can_take_focus: self.can_take_focus,
            changed: self.changed,
        }
    }
}

impl TextInputState {
    /// Well-formedness: the cursor never exceeds the value's length, and
    /// only a focusable widget holds the internal focus flag.
    pub closed spec fn wf(&self) -> bool {
        self.cursor_pos as nat <= self.value@.len() && (self.focused ==> self.can_take_focus)
    }

    /// A fresh state holding `value`, with the cursor at the end, focusable
    /// and unfocused.
    pub fn with_value(value: &str) -> (r: TextInputState)
        ensures
            r.wf(),
            r@.value == value@,
            r@.cursor == value@.len(),
            !r@.focused,
            r@.can_take_focus,
            !r@.changed,
    {
        let owned: String = value.to_owned();
        let cursor: usize = owned.as_str().unicode_len();
        TextInputState {
            value: owned,
            cursor_pos: cursor,
            focused: false,
            can_take_focus: true,
            changed: false,
        }
    }

    /// Allow or forbid focusing this widget; forbidding implies an implicit
    /// `unfocus`.
    pub fn can_take_focus(&mut self, can_take_focus: bool)
        requires
            old(self).wf(),
        ensures
            final(self).wf(),
            final(self)@.can_take_focus == can_take_focus,
            final(self)@.focused == (can_take_focus && old(self)@.focused),
            final(self)@.value == old(self)@.value,
            final(self)@.cursor == old(self)@.cursor,
            final(self)@.changed == old(self)@.changed,
    {
        if !can_take_focus {
            self.unfocus();
        }
        self.can_take_focus = can_take_focus;
    }

    /// Is the widget currently focused?
    pub fn is_focused(&self) -> (r: bool)
        ensures
            r == self@.focused,
    {
        self.can_take_focus && self.focused
    }

    /// Request focus; ignored when the widget cannot take focus.
    pub fn focus(&mut self)
        requires
            old(self).wf(),
        ensures
            final(self).wf(),
            final(self)@.focused == old(self)@.can_take_focus,
            final(self)@.can_take_focus == old(self)@.can_take_focus,
            final(self)@.value == old(self)@.value,
            final(self)@.cursor == old(self)@.cursor,
            final(self)@.changed == old(self)@.changed,
    {
        if self.can_take_focus {
            self.focused = true;
        }
    }

    /// Give up focus; always succeeds and is idempotent.
    pub fn unfocus(&mut self)
        requires
            old(self).wf(),
        ensures
            final(self).wf(),
            !final(self)@.focused,
            final(self)@.can_take_focus == old(self)@.can_take_focus,
            final(self)@.value == old(self)@.value,
            final(self)@.cursor == old(self)@.cursor,
            final(self)@.changed == old(self)@.changed,
    {
        self.focused = false;
    }

    /// Replace the value; the cursor is clamped to the new length so that it
    /// never exceeds it.
    pub fn set_value(&mut self, val: &str)
        requires
            old(self).wf(),
        ensures
            final(self).wf(),
            final(self)@.value == val@,
            final(self)@.cursor == if old(self)@.cursor <= val@.len() {
                old(self)@.cursor
            } else {
                val@.len()
            },
            final(self)@.focused == old(self)@.focused,
            final(self)@.can_take_focus == old(self)@.can_take_focus,
            final(self)@.changed == old(self)@.changed,
    {
        self.value = val.to_owned();
        let len: usize = self.value.as_str().unicode_len();
        if self.cursor_pos > len {
            self.cursor_pos = len;
        }
    }

    /// Move the cursor. An out-of-range position is clamped to the value's
    /// length: the cursor is never allowed to exceed it.
    pub fn set_cursor_pos(&mut self, pos: usize)
        requires
            old(self).wf(),
        ensures
            final(self).wf(),
            final(self)@.cursor == if pos as nat <= old(self)@.value.len() {
                pos as nat
            } else {
                old(self)@.value.len()
            },
            final(self)@.value == old(self)@.value,
            final(self)@.focused == old(self)@.focused,
            final(self)@.can_take_focus == old(self)@.can_take_focus,
            final(self)@.changed == old(self)@.changed,
    {
        let len: usize = self.value.as_str().unicode_len();
        self.cursor_pos = if pos <= len {
            pos
        } else {
            len
        };
    }

    /// The cursor's character position.
    pub fn get_cursor_pos(&self) -> (r: usize)
        ensures
            r as nat == self@.cursor,
    {
        self.cursor_pos
    }

    /// The entered text.
    pub fn get_value(&self) -> (r: &str)
        ensures
            r@ == self@.value,
    {
        self.value.as_str()
    }

    /// Did the most recent event handled mutate value or cursor?
    pub fn changed(&self) -> (r: bool)
        ensures
            r == self@.changed,
    {
        self.changed
    }
}

impl TextInputState {
    /// Insert `ch` at the cursor and advance the cursor past it.
    fn insert_char(&mut self, ch: char) -> (r: InteractionOutcome)
        requires
            old(self).wf(),
            !old(self)@.changed,
        ensures
            final(self).wf(),
            final(self)@.value == old(self)@.value.insert(old(self)@.cursor as int, ch),
            final(self)@.cursor == old(self)@.cursor + 1,
            final(self)@.focused == old(self)@.focused,
            final(self)@.can_take_focus == old(self)@.can_take_focus,
            final(self)@.changed,
            r == InteractionOutcome::Consumed,
    {
        let c: usize = self.cursor_pos;
        let len: usize = self.value.as_str().unicode_len();
        let mut newv: String = self.value.as_str().substring_char(0, c).to_owned();
        newv.push(ch);
        let post: &str = self.value.as_str().substring_char(c, len);
        newv.append(post);
        proof {
            assert(newv@ =~= old(self)@.value.insert(c as int, ch));
        }
        self.value = newv;
        // The grown value's length is a usize one past the old cursor, so
        // advancing the cursor cannot overflow.
        let nl: usize = self.value.as_str().unicode_len();
        assert(c < nl);
        self.cursor_pos = c + 1;
        self.changed = true;
        InteractionOutcome::Consumed
    }

    /// Remove the character left of the cursor, if any, and move the cursor
    /// onto its place.
    fn backspace(&mut self) -> (r: InteractionOutcome)
        requires
            old(self).wf(),
            !old(self)@.changed,
        ensures
            final(self).wf(),
            final(self)@.focused == old(self)@.focused,
            final(self)@.can_take_focus == old(self)@.can_take_focus,
            old(self)@.cursor > 0 ==> final(self)@.value == old(self)@.value.remove(
                old(self)@.cursor as int - 1,
            ) && final(self)@.cursor == old(self)@.cursor - 1 && final(self)@.changed && r
                == InteractionOutcome::Consumed,
            old(self)@.cursor == 0 ==> *final(self) == *old(self) && r
                == InteractionOutcome::Bubble,
    {
        if self.cursor_pos == 0 {
            return InteractionOutcome::Bubble;
        }
        let c: usize = self.cursor_pos;
        let len: usize = self.value.as_str().unicode_len();
        let mut newv: String = self.value.as_str().substring_char(0, c - 1).to_owned();
        let post: &str = self.value.as_str().substring_char(c, len);
        newv.append(post);
        proof {
            assert(newv@ =~= old(self)@.value.remove(c as int - 1));
        }
        self.value = newv;
        self.cursor_pos = c - 1;
        self.changed = true;
        InteractionOutcome::Consumed
    }

    /// Remove the character under the cursor, if any; the cursor stays.
    fn delete_forward(&mut self) -> (r: InteractionOutcome)
        requires
            old(self).wf(),
            !old(self)@.changed,
        ensures
            final(self).wf(),
            final(self)@.focused == old(self)@.focused,
            final(self)@.can_take_focus == old(self)@.can_take_focus,
            old(self)@.cursor < old(self)@.value.len() ==> final(self)@.value
                == old(self)@.value.remove(old(self)@.cursor as int) && final(self)@.cursor
                == old(self)@.cursor && final(self)@.changed && r == InteractionOutcome::Consumed,
            old(self)@.cursor >= old(self)@.value.len() ==> *final(self) == *old(self) && r
                == InteractionOutcome::Bubble,
    {
        let c: usize = self.cursor_pos;
        let len: usize = self.value.as_str().unicode_len();
        if c >= len {
            return InteractionOutcome::Bubble;
        }
        let mut newv: String = self.value.as_str().substring_char(0, c).to_owned();
        let post: &str = self.value.as_str().substring_char(c + 1, len);
        newv.append(post);
        proof {
            assert(newv@ =~= old(self)@.value.remove(c as int));
        }
        self.value = newv;
        self.changed = true;
        InteractionOutcome::Consumed
    }

    /// Move the cursor to character position `to`; consumed only if it moved.
    fn move_cursor_to(&mut self, to: usize) -> (r: InteractionOutcome)
        requires
            old(self).wf(),
            !old(self)@.changed,
            to as nat <= old(self)@.value.len(),
        ensures
            final(self).wf(),
            final(self)@.value == old(self)@.value,
            final(self)@.cursor == to as nat,
            final(self)@.focused == old(self)@.focused,
            final(self)@.can_take_focus == old(self)@.can_take_focus,
            final(self)@.changed == (to as nat != old(self)@.cursor),
            r == InteractionOutcome::Consumed <==> final(self)@.changed,
    {
        if to != self.cursor_pos {
            self.cursor_pos = to;
            self.changed = true;
            InteractionOutcome::Consumed
        } else {
            InteractionOutcome::Bubble
        }
    }

    /// Delete from the start of the word left of the cursor up to the
    /// cursor, and put the cursor where the deletion started.
    fn delete_word_back(&mut self) -> (r: InteractionOutcome)
        requires
            old(self).wf(),
            !old(self)@.changed,
        ensures
            final(self).wf(),
            final(self)@.focused == old(self)@.focused,
            final(self)@.can_take_focus == old(self)@.can_take_focus,
            final(self)@.value == old(self)@.value.subrange(
                0,
                prev_word_start(old(self)@.value, old(self)@.cursor) as int,
            ) + old(self)@.value.subrange(
                old(self)@.cursor as int,
                old(self)@.value.len() as int,
            ),
            final(self)@.cursor == prev_word_start(old(self)@.value, old(self)@.cursor),
            final(self)@.changed == (final(self)@.value != old(self)@.value
                || final(self)@.cursor != old(self)@.cursor),
            r == InteractionOutcome::Consumed <==> final(self)@.changed,
    {
        let c: usize = self.cursor_pos;
        let len: usize = self.value.as_str().unicode_len();
        let start: usize = scan_prev_word_start(self.value.as_str(), c);
        if start == c {
            proof {
                assert(old(self)@.value.subrange(0, c as int) + old(self)@.value.subrange(
                    c as int,
                    old(self)@.value.len() as int,
                ) =~= old(self)@.value);
            }
            return InteractionOutcome::Bubble;
        }
        let mut newv: String = self.value.as_str().substring_char(0, start).to_owned();
        let post: &str = self.value.as_str().substring_char(c, len);
        newv.append(post);
        proof {
            // The deleted stretch is non-empty, so the value shrank.
            assert(newv@.len() < old(self)@.value.len());
        }
        self.value = newv;
        self.cursor_pos = start;
        self.changed = true;
        InteractionOutcome::Consumed
    }

    /// Apply one key press; `Consumed` exactly when value or cursor changed.
    fn handle_key(&mut self, key: KeyPress) -> (r: InteractionOutcome)
        requires
            old(self).wf(),
            !old(self)@.changed,
        ensures
            final(self).wf(),
            final(self)@.value == edit_key(old(self)@.value, old(self)@.cursor, key).0,
            final(self)@.cursor == edit_key(old(self)@.value, old(self)@.cursor, key).1,
            final(self)@.focused == old(self)@.focused,
            final(self)@.can_take_focus == old(self)@.can_take_focus,
            final(self)@.changed == (final(self)@.value != old(self)@.value || final(self)@.cursor
                != old(self)@.cursor),
            r == InteractionOutcome::Consumed <==> final(self)@.changed,
    {
        if key.ctrl && !key.alt {
            match key.code {
                KeyCode::Char(ch) => {
                    if ch == 'a' {
                        self.move_cursor_to(0)
                    } else if ch == 'e' {
                        let len: usize = self.value.as_str().unicode_len();
                        self.move_cursor_to(len)
                    } else if ch == 'w' {
                        self.delete_word_back()
                    } else {
                        InteractionOutcome::Bubble
                    }
                },
                _ => InteractionOutcome::Bubble,
            }
        } else if key.alt && !key.ctrl {
            match key.code {
                KeyCode::Char(ch) => {
                    if ch == 'b' {
                        let start: usize = scan_prev_word_start(
                            self.value.as_str(),
                            self.cursor_pos,
                        );
                        self.move_cursor_to(start)
                    } else if ch == 'f' {
                        let end: usize = scan_next_word_end(self.value.as_str(), self.cursor_pos);
                        self.move_cursor_to(end)
                    } else {
                        InteractionOutcome::Bubble
                    }
                },
                _ => InteractionOutcome::Bubble,
            }
        } else if !key.ctrl && !key.alt {
            match key.code {
                KeyCode::Char(ch) => self.insert_char(ch),
                KeyCode::Backspace => self.backspace(),
                KeyCode::Delete => self.delete_forward(),
                KeyCode::Left => {
                    if self.cursor_pos > 0 {
                        let to: usize = self.cursor_pos - 1;
                        self.move_cursor_to(to)
                    } else {
                        InteractionOutcome::Bubble
                    }
                },
                KeyCode::Right => {
                    let len: usize = self.value.as_str().unicode_len();
                    if self.cursor_pos < len {
                        let to: usize = self.cursor_pos + 1;
                        self.move_cursor_to(to)
                    } else {
                        InteractionOutcome::Bubble
                    }
                },
                _ => InteractionOutcome::Bubble,
            }
        } else {
            InteractionOutcome::Bubble
        }
    }

    /// Offer one event to the input. The change flag is reset first, then set
    /// exactly when the event mutated value or cursor, which is also when the
    /// event is consumed; everything else bubbles to the caller. Focus is
    /// never affected.
    pub fn handle_event(&mut self, event: Event) -> (r: InteractionOutcome)
        requires
            old(self).wf(),
        ensures
            final(self).wf(),
            final(self)@.value == edit(old(self)@.value, old(self)@.cursor, event).0,
            final(self)@.cursor == edit(old(self)@.value, old(self)@.cursor, event).1,
            final(self)@.focused == old(self)@.focused,
            final(self)@.can_take_focus == old(self)@.can_take_focus,
            final(self)@.changed == (final(self)@.value != old(self)@.value || final(self)@.cursor
                != old(self)@.cursor),
            r == InteractionOutcome::Consumed <==> final(self)@.changed,
    {
        self.changed = false;
        match event {
            Event::Key(key) => self.handle_key(key),
            Event::Other => InteractionOutcome::Bubble,
        }
    }
}

impl InteractiveWidgetState for TextInputState {
    open spec fn obs(&self) -> WidgetObs {
        WidgetObs {
            focused: self@.focused,
            can_take_focus: self@.can_take_focus,
            changed: self@.changed,
        }
    }

    open spec fn inv(&self) -> bool {
        self.wf()
    }

    open spec fn focus_only_transition(&self, post: Self) -> bool {
        &&& post@.value == self@.value
        &&& post@.cursor == self@.cursor
        &&& post@.can_take_focus == self@.can_take_focus
        &&& post@.changed == self@.changed
    }

    open spec fn event_transition(&self, event: Event, post: Self, outcome: InteractionOutcome) -> bool {
        &&& post@.value == edit(self@.value, self@.cursor, event).0
        &&& post@.cursor == edit(self@.value, self@.cursor, event).1
        &&& post@.focused == self@.focused
        &&& post@.can_take_focus == self@.can_take_focus
        &&& post@.changed == (post@.value != self@.value || post@.cursor != self@.cursor)
        &&& (outcome == InteractionOutcome::Consumed <==> post@.changed)
    }

    fn handle_event(&mut self, event: Event) -> (r: InteractionOutcome) {
        TextInputState::handle_event(self, event)
    }

    fn changed(&self) -> (r: bool) {
        TextInputState::changed(self)
    }

    fn is_focused(&self) -> (r: bool) {
        TextInputState::is_focused(self)
    }

    fn focus(&mut self) {
        TextInputState::focus(self)
    }

    fn unfocus(&mut self) {
        TextInputState::unfocus(self)
    }
}

impl Default for TextInputState {
    /// An empty, focusable, unfocused state with the cursor at the start.
    fn default() -> (r: TextInputState)
        ensures
            r.wf(),
            r@.value == Seq::<char>::empty(),
            r@.cursor == 0,
            !r@.focused,
            r@.can_take_focus,
            !r@.changed,
    {
        TextInputState {
            value: String::new(),
            cursor_pos: 0,
            focused: false,
            can_take_focus: true,
            changed: false,
        }
    }
}

} // verus!
