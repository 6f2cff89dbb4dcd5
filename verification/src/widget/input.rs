//! Text input: HTML-like single-line editing (cursor, selection, clipboard,
//! IME preedit, password mask).
//!
//! Positions are character indices into the value. The editing rules are
//! stated as transitions of an `EditModel`; clipboard access is an effect the
//! caller performs (`Copy`, `Cut`, `RequestPaste`), after which it hands the
//! pasted text back through `paste`.
use crate::event::{EventStatus, Key, Modifiers};
use crate::style::CursorStyle;
use crate::text::{chars_of, string_of};
use vstd::prelude::*;

verus! {

/// Height presets for Input.
#[derive(Debug, Clone, Copy, PartialEq, Eq, Structural)]
pub enum InputSize {
    Sm,
    Md,
    Lg,
}

impl Default for InputSize {
    fn default() -> (r: Self)
        ensures
            r == InputSize::Md,
    {
        InputSize::Md
    }
}

impl InputSize {
    /// Extra height over the font size, in pixels: the input is
    /// `font_size + height_padding()` tall.
    pub fn height_padding(&self) -> (r: u32)
        ensures
            r == match *self {
                InputSize::Sm => 12u32,
                InputSize::Md => 20u32,
                InputSize::Lg => 28u32,
            },
    {
        match self {
            InputSize::Sm => 12,
            InputSize::Md => 20,
            InputSize::Lg => 28,
        }
    }
}

/// The editing state of an input.
pub ghost struct EditModel {
    pub value: Seq<char>,
    pub preedit: Seq<char>,
    pub cursor: int,
    pub anchor: Option<int>,
    pub focused: bool,
}

/// Cursor and anchor are positions inside the value.
pub open spec fn model_wf(m: EditModel) -> bool {
    &&& 0 <= m.cursor <= m.value.len()
    &&& m.anchor matches Some(a) ==> 0 <= a <= m.value.len()
}

pub open spec fn sel_start(m: EditModel) -> int {
    match m.anchor {
        Some(a) => if a <= m.cursor { a } else { m.cursor },
        None => m.cursor,
    }
}

pub open spec fn sel_end(m: EditModel) -> int {
    match m.anchor {
        Some(a) => if a <= m.cursor { m.cursor } else { a },
        None => m.cursor,
    }
}

/// Some text is selected: the anchor is set and differs from the cursor.
pub open spec fn has_selection(m: EditModel) -> bool {
    m.anchor matches Some(a) && a != m.cursor
}

pub open spec fn selected_text(m: EditModel) -> Seq<char> {
    m.value.subrange(sel_start(m), sel_end(m))
}

/// The selected text removed (the cursor goes to its start); the anchor is
/// dropped in any case.
pub open spec fn without_selection(m: EditModel) -> EditModel {
    if has_selection(m) {
        EditModel {
            value: m.value.take(sel_start(m)) + m.value.skip(sel_end(m)),
            cursor: sel_start(m),
            anchor: None,
            ..m
        }
    } else {
        EditModel { anchor: None, ..m }
    }
}

/// `text` inserted at the cursor; the cursor moves past it.
pub open spec fn insert_at_cursor(m: EditModel, text: Seq<char>) -> EditModel {
    EditModel {
        value: m.value.take(m.cursor) + text + m.value.skip(m.cursor),
        cursor: m.cursor + text.len(),
        ..m
    }
}

/// Typed (committed) text: the preedit is dropped, the selection replaced.
pub open spec fn typed(m: EditModel, text: Seq<char>) -> EditModel {
    insert_at_cursor(without_selection(EditModel { preedit: Seq::empty(), ..m }), text)
}

/// Pasted text replaces the selection.
pub open spec fn pasted(m: EditModel, text: Seq<char>) -> EditModel {
    insert_at_cursor(without_selection(m), text)
}

pub open spec fn extended_anchor(m: EditModel) -> Option<int> {
    if m.anchor is None {
        Some(m.cursor)
    } else {
        m.anchor
    }
}

pub open spec fn prev_pos(m: EditModel) -> int {
    if m.cursor == 0 {
        0
    } else {
        m.cursor - 1
    }
}

pub open spec fn next_pos(m: EditModel) -> int {
    if m.cursor < m.value.len() {
        m.cursor + 1
    } else {
        m.value.len() as int
    }
}

pub open spec fn after_left(m: EditModel, shift: bool) -> EditModel {
    if shift {
        EditModel { anchor: extended_anchor(m), cursor: prev_pos(m), ..m }
    } else if has_selection(m) {
        EditModel { cursor: sel_start(m), anchor: None, ..m }
    } else {
        EditModel { cursor: prev_pos(m), ..m }
    }
}

pub open spec fn after_right(m: EditModel, shift: bool) -> EditModel {
    if shift {
        EditModel { anchor: extended_anchor(m), cursor: next_pos(m), ..m }
    } else if has_selection(m) {
        EditModel { cursor: sel_end(m), anchor: None, ..m }
    } else {
        EditModel { cursor: next_pos(m), ..m }
    }
}

pub open spec fn after_home(m: EditModel, shift: bool) -> EditModel {
    EditModel { anchor: if shift { extended_anchor(m) } else { None }, cursor: 0, ..m }
}

pub open spec fn after_end(m: EditModel, shift: bool) -> EditModel {
    EditModel {
        anchor: if shift { extended_anchor(m) } else { None },
        cursor: m.value.len() as int,
        ..m
    }
}

/// Backspace: shortens the preedit if there is one; otherwise deletes the
/// selection, or else the character before the cursor.
pub open spec fn after_backspace(m: EditModel) -> EditModel {
    if m.preedit.len() > 0 {
        EditModel { preedit: m.preedit.drop_last(), ..m }
    } else if has_selection(m) {
        without_selection(m)
    } else if m.cursor > 0 {
        EditModel { value: m.value.remove(m.cursor - 1), cursor: m.cursor - 1, anchor: None, ..m }
    } else {
        without_selection(m)
    }
}

/// Delete: deletes the selection, or else the character after the cursor.
pub open spec fn after_delete(m: EditModel) -> EditModel {
    if has_selection(m) {
        without_selection(m)
    } else if m.cursor < m.value.len() {
        EditModel { value: m.value.remove(m.cursor), anchor: None, ..m }
    } else {
        without_selection(m)
    }
}

pub open spec fn after_escape(m: EditModel) -> EditModel {
    if m.preedit.len() > 0 {
        EditModel { preedit: Seq::empty(), ..m }
    } else {
        EditModel { focused: false, anchor: None, ..m }
    }
}

pub open spec fn after_select_all(m: EditModel) -> EditModel {
    EditModel { anchor: Some(0), cursor: m.value.len() as int, ..m }
}

/// The state after a key press (the effects are in `key_effect`).
pub open spec fn after_key(m: EditModel, key: Key, mods: Modifiers) -> EditModel {
    if !m.focused {
        m
    } else {
        match key {
            Key::ArrowLeft => after_left(m, mods.shift),
            Key::ArrowRight => after_right(m, mods.shift),
            Key::Home => after_home(m, mods.shift),
            Key::End => after_end(m, mods.shift),
            Key::Backspace => after_backspace(m),
            Key::Delete => after_delete(m),
            Key::Enter => EditModel { preedit: Seq::empty(), ..m },
            Key::Escape => after_escape(m),
            Key::Char(c) => if mods.spec_command() && c == 'a' {
                after_select_all(m)
            } else if mods.spec_command() && c == 'x' && has_selection(m) {
                without_selection(m)
            } else {
                m
            },
            _ => m,
        }
    }
}

/// What the caller must do after an input event.
pub ghost enum EditEffect {
    Nothing,
    /// The value changed.
    Changed,
    /// Enter was pressed.
    Submit,
    /// Put this text on the clipboard.
    Copy(Seq<char>),
    /// Put this text on the clipboard; the value changed.
    Cut(Seq<char>),
    /// Read the clipboard and hand its text to `paste`.
    RequestPaste,
    /// The clear button emptied the value.
    Cleared,
}

pub open spec fn key_effect(m: EditModel, key: Key, mods: Modifiers) -> EditEffect {
    if !m.focused {
        EditEffect::Nothing
    } else {
        match key {
            Key::Backspace => if m.preedit.len() == 0 && (has_selection(m) || m.cursor > 0) {
                EditEffect::Changed
            } else {
                EditEffect::Nothing
            },
            Key::Delete => if has_selection(m) || m.cursor < m.value.len() {
                EditEffect::Changed
            } else {
                EditEffect::Nothing
            },
            Key::Enter => EditEffect::Submit,
            Key::Char(c) => if mods.spec_command() && c == 'c' && has_selection(m) {
                EditEffect::Copy(selected_text(m))
            } else if mods.spec_command() && c == 'x' && has_selection(m) {
                EditEffect::Cut(selected_text(m))
            } else if mods.spec_command() && c == 'v' {
                EditEffect::RequestPaste
            } else {
                EditEffect::Nothing
            },
            _ => EditEffect::Nothing,
        }
    }
}

/// What the caller must do after an input event (see `EditEffect`).
#[derive(Debug, Clone, PartialEq, Eq)]
pub enum InputEffect {
    Nothing,
    Changed,
    Submit,
    Copy(Vec<char>),
    Cut(Vec<char>),
    RequestPaste,
    Cleared,
}

impl View for InputEffect {
    type V = EditEffect;

    open spec fn view(&self) -> EditEffect {
        match self {
            InputEffect::Nothing => EditEffect::Nothing,
            InputEffect::Changed => EditEffect::Changed,
            InputEffect::Submit => EditEffect::Submit,
            InputEffect::Copy(t) => EditEffect::Copy(t@),
            InputEffect::Cut(t) => EditEffect::Cut(t@),
            InputEffect::RequestPaste => EditEffect::RequestPaste,
            InputEffect::Cleared => EditEffect::Cleared,
        }
    }
}

/// A single-line text input.
pub struct Input {
    value: Vec<char>,
    placeholder: String,
    preedit: Vec<char>,
    cursor: usize,
    anchor: Option<usize>,
    focused: bool,
    hovered: bool,
    disabled: bool,
    clearable: bool,
    password: bool,
    size: InputSize,
}

pub open spec fn opt_int(o: Option<usize>) -> Option<int> {
    match o {
        Some(a) => Some(a as int),
        None => None,
    }
}

impl View for Input {
    type V = EditModel;

    closed spec fn view(&self) -> EditModel {
        EditModel {
            value: self.value@,
            preedit: self.preedit@,
            cursor: self.cursor as int,
            anchor: opt_int(self.anchor),
            focused: self.focused,
        }
    }
}

impl Input {
    /// The input's own invariant: cursor and anchor lie inside the value.
    pub closed spec fn wf(&self) -> bool {
        model_wf(self@)
    }

    pub closed spec fn spec_disabled(&self) -> bool {
        self.disabled
    }

    pub closed spec fn spec_clearable(&self) -> bool {
        self.clearable
    }

    pub closed spec fn spec_password(&self) -> bool {
        self.password
    }

    pub closed spec fn spec_hovered(&self) -> bool {
        self.hovered
    }

    pub closed spec fn spec_size(&self) -> InputSize {
        self.size
    }

    pub closed spec fn spec_placeholder(&self) -> Seq<char> {
        self.placeholder@
    }

    /// The fields other than the edit state are those of `other`.
    pub open spec fn same_settings(&self, other: &Input) -> bool {
        &&& self.spec_disabled() == other.spec_disabled()
        &&& self.spec_clearable() == other.spec_clearable()
        &&& self.spec_password() == other.spec_password()
        &&& self.spec_hovered() == other.spec_hovered()
        &&& self.spec_size() == other.spec_size()
        &&& self.spec_placeholder() == other.spec_placeholder()
    }

    /// A new input holding `value`, with the cursor at its end.
    pub fn new(value: String) -> (r: Self)
        ensures
            r.wf(),
            r@ == (EditModel {
                value: value@,
                preedit: Seq::empty(),
                cursor: value@.len() as int,
                anchor: None,
                focused: false,
            }),
            !r.spec_disabled(),
            !r.spec_clearable(),
            !r.spec_password(),
            !r.spec_hovered(),
            r.spec_size() == InputSize::Md,
            r.spec_placeholder() == Seq::<char>::empty(),
    {
        let v = chars_of(value.as_str());
        let end = v.len();
        Input {
            value: v,
            placeholder: String::new(),
            preedit: Vec::new(),
            cursor: end,
            anchor: None,
            focused: false,
            hovered: false,
            disabled: false,
            clearable: false,
            password: false,
            size: InputSize::Md,
        }
    }

    pub fn placeholder(self, p: String) -> (r: Self)
        ensures
            r@ == self@,
            r.wf() == self.wf(),
            r.spec_placeholder() == p@,
            r.spec_disabled() == self.spec_disabled(),
            r.spec_clearable() == self.spec_clearable(),
            r.spec_password() == self.spec_password(),
            r.spec_hovered() == self.spec_hovered(),
            r.spec_size() == self.spec_size(),
    {
        Input { placeholder: p, ..self }
    }

    pub fn disabled(self, d: bool) -> (r: Self)
        ensures
            r@ == self@,
            r.wf() == self.wf(),
            r.spec_disabled() == d,
            r.spec_placeholder() == self.spec_placeholder(),
            r.spec_clearable() == self.spec_clearable(),
            r.spec_password() == self.spec_password(),
            r.spec_hovered() == self.spec_hovered(),
            r.spec_size() == self.spec_size(),
    {
        Input { disabled: d, ..self }
    }

    pub fn size(self, s: InputSize) -> (r: Self)
        ensures
            r@ == self@,
            r.wf() == self.wf(),
            r.spec_size() == s,
            r.spec_disabled() == self.spec_disabled(),
            r.spec_placeholder() == self.spec_placeholder(),
            r.spec_clearable() == self.spec_clearable(),
            r.spec_password() == self.spec_password(),
            r.spec_hovered() == self.spec_hovered(),
    {
        Input { size: s, ..self }
    }

    pub fn clearable(self) -> (r: Self)
        ensures
            r@ == self@,
            r.wf() == self.wf(),
            r.spec_clearable(),
            r.spec_size() == self.spec_size(),
            r.spec_disabled() == self.spec_disabled(),
            r.spec_placeholder() == self.spec_placeholder(),
            r.spec_password() == self.spec_password(),
            r.spec_hovered() == self.spec_hovered(),
    {
        Input { clearable: true, ..self }
    }

    pub fn password(self) -> (r: Self)
        ensures
            r@ == self@,
            r.wf() == self.wf(),
            r.spec_password(),
            r.spec_clearable() == self.spec_clearable(),
            r.spec_size() == self.spec_size(),
            r.spec_disabled() == self.spec_disabled(),
            r.spec_placeholder() == self.spec_placeholder(),
            r.spec_hovered() == self.spec_hovered(),
    {
        Input { password: true, ..self }
    }

    // ── Queries ─────────────────────────────────────────────────────────────

    /// The current value.
    pub fn value(&self) -> (r: String)
        ensures
            r@ == self@.value,
    {
        string_of(&self.value)
    }

    /// The current value, as characters.
    pub fn value_chars(&self) -> (r: &Vec<char>)
        ensures
            r@ == self@.value,
    {
        &self.value
    }

    pub fn preedit_chars(&self) -> (r: &Vec<char>)
        ensures
            r@ == self@.preedit,
    {
        &self.preedit
    }

    pub fn placeholder_text(&self) -> (r: &String)
        ensures
            r@ == self.spec_placeholder(),
    {
        &self.placeholder
    }

    pub fn cursor(&self) -> (r: usize)
        ensures
            r == self@.cursor,
    {
        self.cursor
    }

    pub fn is_focused(&self) -> (r: bool)
        ensures
            r == self@.focused,
    {
        self.focused
    }

    pub fn is_hovered(&self) -> (r: bool)
        ensures
            r == self.spec_hovered(),
    {
        self.hovered
    }

    pub fn is_disabled(&self) -> (r: bool)
        ensures
            r == self.spec_disabled(),
    {
        self.disabled
    }

    pub fn is_password(&self) -> (r: bool)
        ensures
            r == self.spec_password(),
    {
        self.password
    }

    pub fn input_size(&self) -> (r: InputSize)
        ensures
            r == self.spec_size(),
    {
        self.size
    }

    /// An enabled input reacts to the pointer.
    pub fn is_interactive(&self) -> (r: bool)
        ensures
            r == !self.spec_disabled(),
    {
        !self.disabled
    }

    /// The clear button shows when the input is clearable, enabled and not empty.
    pub fn shows_clear_button(&self) -> (r: bool)
        ensures
            r == (self.spec_clearable() && self@.value.len() > 0 && !self.spec_disabled()),
    {
        self.clearable && self.value.len() > 0 && !self.disabled
    }

    pub fn has_selection(&self) -> (r: bool)
        ensures
            r == has_selection(self@),
    {
        match self.anchor {
            Some(a) => a != self.cursor,
            None => false,
        }
    }

    /// The selected range `(start, end)`, ordered, when an anchor is set.
    pub fn selection_range(&self) -> (r: Option<(usize, usize)>)
        ensures
            self@.anchor is None ==> r is None,
            self@.anchor is Some ==> r == Some((sel_start(self@) as usize, sel_end(self@) as usize)),
    {
        match self.anchor {
            Some(a) => if a <= self.cursor {
                Some((a, self.cursor))
            } else {
                Some((self.cursor, a))
            },
            None => None,
        }
    }

    /// Cursor shape for a pointer that is (or is not) over the input.
    pub fn cursor_style(&self, inside: bool) -> (r: CursorStyle)
        ensures
            !inside ==> r == CursorStyle::Default,
            inside && self.spec_disabled() ==> r == CursorStyle::NotAllowed,
            inside && !self.spec_disabled() ==> r == CursorStyle::Text,
    {
        if !inside {
            CursorStyle::Default
        } else if self.disabled {
            CursorStyle::NotAllowed
        } else {
            CursorStyle::Text
        }
    }

    // ── Editing primitives ──────────────────────────────────────────────────

    fn selected_chars(&self) -> (r: Vec<char>)
        requires
            self.wf(),
        ensures
            r@ == selected_text(self@),
    {
        let (s, e) = match self.anchor {
            Some(a) => if a <= self.cursor {
                (a, self.cursor)
            } else {
                (self.cursor, a)
            },
            None => (self.cursor, self.cursor),
        };
        let mut out: Vec<char> = Vec::new();
        let mut i = s;
        while i < e
            invariant
                s <= i <= e,
                e <= self.value@.len(),
                s == sel_start(self@),
                e == sel_end(self@),
                out@ == self.value@.subrange(s as int, i as int),
            decreases e - i,
        {
            out.push(self.value[i]);
            i += 1;
            proof {
                assert(out@ =~= self.value@.subrange(s as int, i as int));
            }
        }
        out
    }

    /// Delete the selected text; returns whether anything was deleted.
    fn delete_selection(&mut self) -> (deleted: bool)
        requires
            old(self).wf(),
        ensures
            final(self).wf(),
            final(self)@ == without_selection(old(self)@),
            deleted == has_selection(old(self)@),
            final(self).same_settings(old(self)),
    {
        match self.anchor {
            Some(a) => {
                let (s, e) = if a <= self.cursor {
                    (a, self.cursor)
                } else {
                    (self.cursor, a)
                };
                if s < e {
                    let mut tail = self.value.split_off(e);
                    self.value.truncate(s);
                    self.value.append(&mut tail);
                    self.cursor = s;
                    self.anchor = None;
                    proof {
                        assert(self.value@ =~= old(self).value@.take(s as int) + old(self).value@.skip(e as int));
                    }
                    return true;
                }
            },
            None => {},
        }
        self.anchor = None;
        false
    }

    /// Insert `text` at the cursor and move the cursor past it.
    fn insert_chars(&mut self, text: &Vec<char>)
        requires
            old(self).wf(),
        ensures
            final(self).wf(),
            final(self)@ == insert_at_cursor(old(self)@, text@),
            final(self).same_settings(old(self)),
    {
        let c = self.cursor;
        let mut tail = self.value.split_off(c);
        let mut i: usize = 0;
        while i < text.len()
            invariant
                i <= text@.len(),
                c == old(self).cursor,
                self.value@ == old(self).value@.take(c as int) + text@.take(i as int),
                tail@ == old(self).value@.skip(c as int),
                self.anchor == old(self).anchor,
                self.preedit == old(self).preedit,
                self.focused == old(self).focused,
                self.same_settings(old(self)),
            decreases text@.len() - i,
        {
            self.value.push(text[i]);
            i += 1;
            proof {
                assert(self.value@ =~= old(self).value@.take(c as int) + text@.take(i as int));
            }
        }
        proof {
            assert(text@.take(i as int) =~= text@);
        }
        self.value.append(&mut tail);
        let n = self.value.len();
        proof {
            assert(self.value@ =~= old(self).value@.take(c as int) + text@ + old(self).value@.skip(c as int));
            assert(c + text@.len() <= n);
        }
        self.cursor = c + text.len();
        proof {
            if let Some(a) = old(self).anchor {
                assert(a <= self.value@.len());
            }
        }
    }

    // ── Events ──────────────────────────────────────────────────────────────

    /// A key press. Keys reach the input only while it is focused; then every
    /// key is consumed.
    pub fn handle_key(&mut self, key: Key, mods: Modifiers) -> (r: (EventStatus, InputEffect))
        requires
            old(self).wf(),
        ensures
            final(self).wf(),
            final(self)@ == after_key(old(self)@, key, mods),
            r.1@ == key_effect(old(self)@, key, mods),
            r.0 == (if old(self)@.focused { EventStatus::Consumed } else { EventStatus::Ignored }),
            final(self).same_settings(old(self)),
    {
        if !self.focused {
            return (EventStatus::Ignored, InputEffect::Nothing);
        }
        let command = mods.command();
        let shift = mods.shift;
        let effect = match key {
            Key::ArrowLeft => {
                let left = if self.cursor == 0 { 0 } else { self.cursor - 1 };
                if shift {
                    if self.anchor.is_none() {
                        self.anchor = Some(self.cursor);
                    }
                    self.cursor = left;
                } else if self.has_selection() {
                    let (s, _) = self.selection_range().unwrap();
                    self.cursor = s;
                    self.anchor = None;
                } else {
                    self.cursor = left;
                }
                InputEffect::Nothing
            },
            Key::ArrowRight => {
                let right = if self.cursor < self.value.len() { self.cursor + 1 } else { self.value.len() };
                if shift {
                    if self.anchor.is_none() {
                        self.anchor = Some(self.cursor);
                    }
                    self.cursor = right;
                } else if self.has_selection() {
                    let (_, e) = self.selection_range().unwrap();
                    self.cursor = e;
                    self.anchor = None;
                } else {
                    self.cursor = right;
                }
                InputEffect::Nothing
            },
            Key::Home => {
                if shift {
                    if self.anchor.is_none() {
                        self.anchor = Some(self.cursor);
                    }
                } else {
                    self.anchor = None;
                }
                self.cursor = 0;
                InputEffect::Nothing
            },
            Key::End => {
                if shift {
                    if self.anchor.is_none() {
                        self.anchor = Some(self.cursor);
                    }
                } else {
                    self.anchor = None;
                }
                self.cursor = self.value.len();
                InputEffect::Nothing
            },
            Key::Backspace => {
                if self.preedit.len() > 0 {
                    let n = self.preedit.len();
                    self.preedit.truncate(n - 1);
                    proof {
                        assert(self.preedit@ =~= old(self).preedit@.drop_last());
                    }
                    InputEffect::Nothing
                } else if self.delete_selection() {
                    InputEffect::Changed
                } else if self.cursor > 0 {
                    let at = self.cursor - 1;
                    self.value.remove(at);
                    self.cursor = at;
                    InputEffect::Changed
                } else {
                    InputEffect::Nothing
                }
            },
            Key::Delete => {
                if self.delete_selection() {
                    InputEffect::Changed
                } else if self.cursor < self.value.len() {
                    let at = self.cursor;
                    self.value.remove(at);
                    InputEffect::Changed
                } else {
                    InputEffect::Nothing
                }
            },
            Key::Enter => {
                self.preedit.clear();
                InputEffect::Submit
            },
            Key::Escape => {
                if self.preedit.len() > 0 {
                    self.preedit.clear();
                } else {
                    self.focused = false;
                    self.anchor = None;
                }
                InputEffect::Nothing
            },
            Key::Char(c) => {
                if command && c == 'a' {
                    self.anchor = Some(0);
                    self.cursor = self.value.len();
                    InputEffect::Nothing
                } else if command && c == 'c' && self.has_selection() {
                    InputEffect::Copy(self.selected_chars())
                } else if command && c == 'x' && self.has_selection() {
                    let text = self.selected_chars();
                    self.delete_selection();
                    InputEffect::Cut(text)
                } else if command && c == 'v' {
                    InputEffect::RequestPaste
                } else {
                    InputEffect::Nothing
                }
            },
            _ => InputEffect::Nothing,
        };
        proof {
            assert(self@ =~= after_key(old(self)@, key, mods));
        }
        (EventStatus::Consumed, effect)
    }

    /// Text pasted from the clipboard (after `RequestPaste`): it replaces the
    /// selection and the cursor moves past it. The value has changed.
    pub fn paste(&mut self, text: &Vec<char>)
        requires
            old(self).wf(),
        ensures
            final(self).wf(),
            final(self)@ == pasted(old(self)@, text@),
            final(self).same_settings(old(self)),
    {
        self.delete_selection();
        self.insert_chars(text);
    }

    /// Committed text (typing, IME commit). While focused it drops the
    /// preedit, replaces the selection and is consumed (the value changed);
    /// otherwise it is ignored.
    pub fn text_input(&mut self, text: &Vec<char>) -> (r: EventStatus)
        requires
            old(self).wf(),
        ensures
            final(self).wf(),
            old(self)@.focused ==> final(self)@ == typed(old(self)@, text@) && r == EventStatus::Consumed,
            !old(self)@.focused ==> final(self)@ == old(self)@ && r == EventStatus::Ignored,
            final(self).same_settings(old(self)),
    {
        if !self.focused {
            return EventStatus::Ignored;
        }
        self.preedit.clear();
        self.delete_selection();
        self.insert_chars(text);
        EventStatus::Consumed
    }

    /// IME preedit update: shown while focused.
    pub fn ime_preedit(&mut self, text: Vec<char>) -> (r: EventStatus)
        requires
            old(self).wf(),
        ensures
            final(self).wf(),
            old(self)@.focused ==> final(self)@ == (EditModel { preedit: text@, ..old(self)@ })
                && r == EventStatus::Consumed,
            !old(self)@.focused ==> final(self)@ == old(self)@ && r == EventStatus::Ignored,
            final(self).same_settings(old(self)),
    {
        if !self.focused {
            return EventStatus::Ignored;
        }
        self.preedit = text;
        EventStatus::Consumed
    }

    /// Focus left the input: it drops focus, selection and preedit.
    pub fn focus_lost(&mut self) -> (r: EventStatus)
        requires
            old(self).wf(),
        ensures
            final(self).wf(),
            final(self)@ == (EditModel {
                focused: false,
                anchor: None,
                preedit: Seq::empty(),
                ..old(self)@
            }),
            r == EventStatus::Ignored,
            final(self).same_settings(old(self)),
    {
        self.focused = false;
        self.anchor = None;
        self.preedit.clear();
        EventStatus::Ignored
    }

    /// The pointer moved; `inside` tells whether it is over the input.
    pub fn mouse_move(&mut self, inside: bool) -> (r: EventStatus)
        requires
            old(self).wf(),
        ensures
            final(self).wf(),
            final(self)@ == old(self)@,
            final(self).spec_hovered() == inside,
            final(self).spec_disabled() == old(self).spec_disabled(),
            final(self).spec_clearable() == old(self).spec_clearable(),
            final(self).spec_password() == old(self).spec_password(),
            final(self).spec_size() == old(self).spec_size(),
            final(self).spec_placeholder() == old(self).spec_placeholder(),
            r == EventStatus::Ignored,
    {
        self.hovered = inside;
        EventStatus::Ignored
    }

    /// Primary button pressed. `inside`: over the input; `on_clear`: over the
    /// clear button; `click_index`: the character position under the pointer.
    /// Inside an enabled input it either clears the value (clear button) or
    /// places the cursor and takes focus; anywhere else it drops focus.
    pub fn mouse_down(&mut self, inside: bool, on_clear: bool, click_index: usize) -> (r: (
        EventStatus,
        InputEffect,
    ))
        requires
            old(self).wf(),
            click_index <= old(self)@.value.len(),
        ensures
            final(self).wf(),
            final(self).same_settings(old(self)),
            inside && !old(self).spec_disabled() && old(self).spec_clearable()
                && old(self)@.value.len() > 0 && on_clear ==> {
                &&& final(self)@ == (EditModel {
                    value: Seq::empty(),
                    preedit: Seq::empty(),
                    cursor: 0,
                    anchor: None,
                    ..old(self)@
                })
                &&& r == (EventStatus::Consumed, InputEffect::Cleared)
            },
            inside && !old(self).spec_disabled() && !(old(self).spec_clearable()
                && old(self)@.value.len() > 0 && on_clear) ==> {
                &&& final(self)@ == (EditModel {
                    cursor: click_index as int,
                    anchor: None,
                    focused: true,
                    ..old(self)@
                })
                &&& r == (EventStatus::Consumed, InputEffect::Nothing)
            },
            !(inside && !old(self).spec_disabled()) ==> {
                &&& final(self)@ == (EditModel { focused: false, anchor: None, ..old(self)@ })
                &&& r == (EventStatus::Ignored, InputEffect::Nothing)
            },
    {
        if inside && !self.disabled {
            if self.clearable && self.value.len() > 0 && on_clear {
                self.value.clear();
                self.preedit.clear();
                self.cursor = 0;
                self.anchor = None;
                return (EventStatus::Consumed, InputEffect::Cleared);
            }
            self.cursor = click_index;
            self.anchor = None;
            self.focused = true;
            (EventStatus::Consumed, InputEffect::Nothing)
        } else {
            self.focused = false;
            self.anchor = None;
            (EventStatus::Ignored, InputEffect::Nothing)
        }
    }
}

/// Shorthand constructor.
pub fn input(value: String) -> (r: Input)
    ensures
        r.wf(),
        r@ == (EditModel {
            value: value@,
            preedit: Seq::empty(),
            cursor: value@.len() as int,
            anchor: None,
            focused: false,
        }),
        !r.spec_disabled(),
        !r.spec_clearable(),
        !r.spec_password(),
        !r.spec_hovered(),
        r.spec_size() == InputSize::Md,
        r.spec_placeholder() == Seq::<char>::empty(),
{
    Input::new(value)
}

/// Law: typing one character and pressing Backspace gives back the value and
/// the cursor (no selection, no preedit, focused).
pub proof fn lemma_backspace_undoes_typing(m: EditModel, c: char, mods: Modifiers)
    requires
        model_wf(m),
        m.focused,
        m.preedit.len() == 0,
        m.anchor is None,
    ensures
        after_key(typed(m, seq![c]), Key::Backspace, mods) == m,
{
    let t = typed(m, seq![c]);
    assert(t.value.remove(m.cursor) =~= m.value);
    assert(m.preedit =~= Seq::<char>::empty());
}

/// Law: with no preedit and some text selected (anchor `a`, cursor `c`),
/// Backspace deletes exactly the selected text, puts the cursor where it
/// began and drops the selection, reporting a change; it acts on a
/// selection exactly as Delete and Ctrl+X do.
pub proof fn lemma_backspace_deletes_selection(m: EditModel, mods: Modifiers, cmd: Modifiers)
    requires
        model_wf(m),
        m.focused,
        m.preedit.len() == 0,
        m.anchor matches Some(a) && a != m.cursor,
        cmd.spec_command(),
    ensures
        ({
            let a = m.anchor->0;
            let lo = if a < m.cursor { a } else { m.cursor };
            let hi = if a < m.cursor { m.cursor } else { a };
            let r = after_key(m, Key::Backspace, mods);
            &&& r.value == m.value.subrange(0, lo) + m.value.subrange(hi, m.value.len() as int)
            &&& r.value.len() == m.value.len() - (hi - lo)
            &&& r.cursor == lo
            &&& r.anchor is None
            &&& r.preedit == m.preedit
            &&& r.focused
        }),
        after_key(m, Key::Backspace, mods) == after_key(m, Key::Delete, mods),
        after_key(m, Key::Backspace, mods) == after_key(m, Key::Char('x'), cmd),
        key_effect(m, Key::Backspace, mods) == EditEffect::Changed,
{
    let a = m.anchor->0;
    let lo = if a < m.cursor { a } else { m.cursor };
    let hi = if a < m.cursor { m.cursor } else { a };
    assert(m.value.take(lo) =~= m.value.subrange(0, lo));
    assert(m.value.skip(hi) =~= m.value.subrange(hi, m.value.len() as int));
}

/// Law: Ctrl+A then Delete empties the value.
pub proof fn lemma_select_all_delete_empties(m: EditModel, m1: Modifiers, m2: Modifiers)
    requires
        model_wf(m),
        m.focused,
        m1.spec_command(),
    ensures
        after_key(after_key(m, Key::Char('a'), m1), Key::Delete, m2).value.len() == 0,
        after_key(after_key(m, Key::Char('a'), m1), Key::Delete, m2).cursor == 0,
{
    let a = after_key(m, Key::Char('a'), m1);
    if m.value.len() > 0 {
        assert(a.value.take(0) + a.value.skip(a.value.len() as int) =~= Seq::<char>::empty());
    }
}

/// Law: pasting the text that Ctrl+X cut gives back the value, with the
/// cursor at the end of the text that was selected.
pub proof fn lemma_paste_undoes_cut(m: EditModel, mods: Modifiers)
    requires
        model_wf(m),
        m.focused,
        has_selection(m),
        mods.spec_command(),
    ensures
        key_effect(m, Key::Char('x'), mods) == EditEffect::Cut(selected_text(m)),
        pasted(after_key(m, Key::Char('x'), mods), selected_text(m)).value == m.value,
        pasted(after_key(m, Key::Char('x'), mods), selected_text(m)).cursor == sel_end(m),
{
    let cut = after_key(m, Key::Char('x'), mods);
    let s = sel_start(m);
    let e = sel_end(m);
    assert(cut.value.take(s) =~= m.value.take(s));
    assert(cut.value.skip(s) =~= m.value.skip(e));
    assert(m.value.take(s) + m.value.subrange(s, e) + m.value.skip(e) =~= m.value);
}

/// Law: with no selection, Left then Right puts the cursor back (when it
/// was not at the start).
pub proof fn lemma_right_undoes_left(m: EditModel, mods: Modifiers)
    requires
        model_wf(m),
        m.focused,
        m.anchor is None,
        m.cursor > 0,
        !mods.shift,
    ensures
        after_key(after_key(m, Key::ArrowLeft, mods), Key::ArrowRight, mods) == m,
{
}

/// Law: every edit keeps cursor and anchor inside the value.
pub proof fn lemma_edits_keep_positions_valid(m: EditModel, key: Key, mods: Modifiers, text: Seq<char>)
    requires
        model_wf(m),
    ensures
        model_wf(after_key(m, key, mods)),
        model_wf(typed(m, text)),
        model_wf(pasted(m, text)),
{
}

} // verus!
