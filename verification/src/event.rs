//! Input event vocabulary shared by the widgets.
use crate::text::chars_of;
use vstd::prelude::*;

verus! {

/// Mouse button identifier.
#[derive(Debug, Clone, Copy, PartialEq, Eq, Structural)]
pub enum MouseButton {
    Left,
    Right,
    Middle,
}

/// A keyboard key (simplified).
#[derive(Debug, Clone, Copy, PartialEq, Eq, Structural)]
pub enum Key {
    Char(char),
    Enter,
    Backspace,
    Delete,
    Tab,
    Escape,
    ArrowUp,
    ArrowDown,
    ArrowLeft,
    ArrowRight,
    Home,
    End,
}

/// Keyboard modifier state.
#[derive(Debug, Clone, Copy, PartialEq, Eq, Structural)]
pub struct Modifiers {
    pub ctrl: bool,
    pub shift: bool,
    pub alt: bool,
    pub meta: bool,
}

impl Modifiers {
    /// The "command" modifier: Ctrl, or Meta on platforms that use it.
    pub open spec fn spec_command(&self) -> bool {
        self.ctrl || self.meta
    }

    #[verifier::when_used_as_spec(spec_command)]
    pub fn command(&self) -> (r: bool)
        ensures
            r == self.spec_command(),
    {
        self.ctrl || self.meta
    }
}

impl Default for Modifiers {
    fn default() -> (r: Self)
        ensures
            !r.ctrl && !r.shift && !r.alt && !r.meta,
    {
        Modifiers { ctrl: false, shift: false, alt: false, meta: false }
    }
}

/// What kind of input event arrived, without its payload (pointer
/// positions, scroll deltas and typed text are looked at by whoever needs
/// them; routing decisions only need the kind).
#[derive(Debug, Clone, Copy, PartialEq, Eq, Structural)]
pub enum EventKind {
    MouseMove,
    MouseDown(MouseButton),
    MouseUp(MouseButton),
    MouseClick(MouseButton),
    MouseDoubleClick(MouseButton),
    Scroll,
    KeyDown(Key),
    KeyUp(Key),
    TextInput,
    ImePreedit,
    FocusGained,
    FocusLost,
    Resized,
    CloseRequested,
}

/// How a widget responds after handling an event.
#[derive(Debug, Clone, Copy, PartialEq, Eq, Structural)]
pub enum EventStatus {
    /// This widget consumed the event: do not propagate further.
    Consumed,
    /// This widget ignored the event: propagate to the next handler.
    Ignored,
}

/// Where a container sends an event it does not settle itself.
#[derive(Debug, Clone, Copy, PartialEq, Eq, Structural)]
pub enum Route {
    /// Settled here: consumed.
    Consumed,
    /// Settled here: ignored.
    Ignored,
    /// Handed to the container's content.
    ToContent,
    /// Handed to the container's trigger widget.
    ToTrigger,
}

/// Whether a container hands an event of `kind` to every child (pointer
/// moves, presses and releases, so each child can update its own hover and
/// focus state) rather than stopping at the first child that consumes it.
pub fn broadcasts(kind: EventKind) -> (r: bool)
    ensures
        r == (kind is MouseMove || kind is MouseDown || kind is MouseUp),
{
    match kind {
        EventKind::MouseMove | EventKind::MouseDown(_) | EventKind::MouseUp(_) => true,
        _ => false,
    }
}

/// One child of a row or column has answered `s`; `acc` is the answer so
/// far. Returns whether to go on to the next child, and the answer so far:
/// consumed once any child consumed. Only a broadcast event goes past a
/// child that consumed it.
pub fn dispatch_step(broadcast: bool, acc: EventStatus, s: EventStatus) -> (r: (bool, EventStatus))
    ensures
        r.0 == (broadcast || s != EventStatus::Consumed),
        r.1 == (if acc == EventStatus::Consumed || s == EventStatus::Consumed {
            EventStatus::Consumed
        } else {
            EventStatus::Ignored
        }),
{
    let consumed = match s {
        EventStatus::Consumed => true,
        EventStatus::Ignored => false,
    };
    let before = match acc {
        EventStatus::Consumed => true,
        EventStatus::Ignored => false,
    };
    let next = if before || consumed {
        EventStatus::Consumed
    } else {
        EventStatus::Ignored
    };
    (broadcast || !consumed, next)
}

/// A control character (Unicode general category Cc): U+0000 to U+001F and
/// U+007F to U+009F.
pub open spec fn is_control(c: char) -> bool {
    (c as u32) <= 0x1f || (0x7f <= (c as u32) && (c as u32) <= 0x9f)
}

/// ASCII upper-case letters become lower-case; every other character stays.
pub open spec fn ascii_lower(c: char) -> char {
    if 'A' <= c && c <= 'Z' {
        ((c as u32) + 32) as char
    } else {
        c
    }
}

/// No character of `t` is a control character.
pub open spec fn printable(t: Seq<char>) -> bool {
    forall|i: int| 0 <= i < t.len() ==> !is_control(#[trigger] t[i])
}

/// What a key press becomes for the widgets.
#[derive(Debug, Clone, PartialEq, Eq)]
pub enum KeyDispatch {
    /// A `KeyDown` of this key.
    Down(Key),
    /// A `TextInput` of this text.
    Text(String),
    /// Nothing is delivered.
    Nothing,
}

pub ghost enum KeyDispatchModel {
    Down(Key),
    Text(Seq<char>),
    Nothing,
}

impl View for KeyDispatch {
    type V = KeyDispatchModel;

    open spec fn view(&self) -> KeyDispatchModel {
        match self {
            KeyDispatch::Down(k) => KeyDispatchModel::Down(*k),
            KeyDispatch::Text(t) => KeyDispatchModel::Text(t@),
            KeyDispatch::Nothing => KeyDispatchModel::Nothing,
        }
    }
}

/// How a pressed key reaches the widgets: a named key (Enter, arrows, ...)
/// is a `KeyDown`; with Ctrl or Meta held, the first character of the key is
/// a shortcut `KeyDown`, lower-cased; otherwise the key's text is typed,
/// unless it is empty or holds a control character.
pub open spec fn key_press(named: Option<Key>, modifiers: Modifiers, key_chars: Seq<char>, text: Option<Seq<char>>) -> KeyDispatchModel {
    match named {
        Some(k) => KeyDispatchModel::Down(k),
        None => if modifiers.ctrl || modifiers.meta {
            if key_chars.len() > 0 {
                KeyDispatchModel::Down(Key::Char(ascii_lower(key_chars[0])))
            } else {
                KeyDispatchModel::Nothing
            }
        } else {
            match text {
                Some(t) => if t.len() > 0 && printable(t) {
                    KeyDispatchModel::Text(t)
                } else {
                    KeyDispatchModel::Nothing
                },
                None => KeyDispatchModel::Nothing,
            }
        },
    }
}

fn lower_ascii(c: char) -> (r: char)
    ensures
        r == ascii_lower(c),
{
    if 'A' <= c && c <= 'Z' {
        let code: u32 = c as u32;
        let lowered: u8 = (code + 32) as u8;
        lowered as char
    } else {
        c
    }
}

fn is_control_char(c: char) -> (r: bool)
    ensures
        r == is_control(c),
{
    let code: u32 = c as u32;
    code <= 0x1f || (0x7f <= code && code <= 0x9f)
}

/// Translates a key press. `named`: the key when it is one of the named
/// keys; `key_chars`: the characters of the logical key; `text`: the text
/// the press produces, if any.
pub fn translate_key_press(named: Option<Key>, modifiers: Modifiers, key_chars: &str, text: Option<String>) -> (r: KeyDispatch)
    ensures
        r@ == key_press(named, modifiers, key_chars@, match text {
            Some(t) => Some(t@),
            None => None,
        }),
{
    match named {
        Some(k) => KeyDispatch::Down(k),
        None => if modifiers.ctrl || modifiers.meta {
            let cs = chars_of(key_chars);
            if cs.len() > 0 {
                KeyDispatch::Down(Key::Char(lower_ascii(cs[0])))
            } else {
                KeyDispatch::Nothing
            }
        } else {
            match text {
                Some(t) => {
                    let cs = chars_of(t.as_str());
                    if cs.len() == 0 {
                        return KeyDispatch::Nothing;
                    }
                    let mut i: usize = 0;
                    while i < cs.len()
                        invariant
                            named is None,
                            !(modifiers.ctrl || modifiers.meta),
                            text == Some(t),
                            i <= cs@.len(),
                            cs@ == t@,
                            forall|j: int| 0 <= j < i ==> !is_control(#[trigger] cs@[j]),
                        decreases cs@.len() - i,
                    {
                        if is_control_char(cs[i]) {
                            assert(!printable(t@));
                            return KeyDispatch::Nothing;
                        }
                        i += 1;
                    }
                    KeyDispatch::Text(t)
                },
                None => KeyDispatch::Nothing,
            }
        },
    }
}

/// Law: without Ctrl and Meta, a key that is not a named key and produces
/// non-empty text `t` without control characters is typed as exactly that
/// text, whatever Shift and Alt are.
pub proof fn lemma_plain_text_is_typed(modifiers: Modifiers, key_chars: Seq<char>, t: Seq<char>)
    requires
        !modifiers.ctrl,
        !modifiers.meta,
        t.len() > 0,
        forall|i: int|
            0 <= i < t.len() ==> (#[trigger] t[i] as u32) >= 0x20 && !(0x7f <= (t[i] as u32) && (t[i] as u32)
                <= 0x9f),
    ensures
        key_press(None, modifiers, key_chars, Some(t)) == KeyDispatchModel::Text(t),
{
    assert forall|i: int| 0 <= i < t.len() implies !is_control(#[trigger] t[i]) by {
        assert((t[i] as u32) >= 0x20);
    }
}

/// Law: with Ctrl or Meta held a key is never typed as text, and a named
/// key is always a key-down of that key.
pub proof fn lemma_shortcuts_and_named_keys(
    named: Option<Key>,
    modifiers: Modifiers,
    key_chars: Seq<char>,
    text: Option<Seq<char>>,
)
    ensures
        modifiers.ctrl || modifiers.meta ==> !(key_press(named, modifiers, key_chars, text) is Text),
        named matches Some(k) ==> key_press(named, modifiers, key_chars, text) == KeyDispatchModel::Down(k),
{
}

} // verus!
