//! Radio group: mutually exclusive options; the chosen one is identified by
//! its value. Arrow keys move the focus ring over the enabled options,
//! Enter/Space or a click choose.
use crate::event::{EventStatus, Key};
use crate::style::CursorStyle;
use crate::text::same_text;
use crate::widget::select::{lemma_position_of, position_in, position_of};
use vstd::prelude::*;

verus! {

/// One option inside a radio group.
#[derive(Debug, Clone)]
pub struct RadioGroupOption {
    pub value: String,
    pub label: String,
    pub disabled: bool,
}

impl RadioGroupOption {
    pub fn new(value: String, label: String) -> (r: Self)
        ensures
            r == (RadioGroupOption { value, label, disabled: false }),
    {
        RadioGroupOption { value, label, disabled: false }
    }

    pub fn disabled(self, v: bool) -> (r: Self)
        ensures
            r == (RadioGroupOption { disabled: v, ..self }),
    {
        RadioGroupOption { disabled: v, ..self }
    }
}

/// The state of a radio group.
pub ghost struct RadioModel {
    pub options: Seq<RadioGroupOption>,
    /// The value of the chosen option.
    pub selected: Seq<char>,
    pub disabled: bool,
    pub hovered: Option<usize>,
    pub focused: Option<usize>,
}

/// Option `i` can be chosen: it exists, and neither it nor the group is disabled.
pub open spec fn choosable(m: RadioModel, i: int) -> bool {
    0 <= i < m.options.len() && !m.disabled && !m.options[i].disabled
}

/// The indices of the choosable options, in order.
pub open spec fn choosable_prefix(m: RadioModel, n: int) -> Seq<usize>
    decreases n,
{
    if n <= 0 {
        Seq::empty()
    } else {
        let rest = choosable_prefix(m, n - 1);
        if choosable(m, n - 1) {
            rest.push((n - 1) as usize)
        } else {
            rest
        }
    }
}

pub open spec fn choosable_indices(m: RadioModel) -> Seq<usize> {
    choosable_prefix(m, m.options.len() as int)
}

pub proof fn lemma_choosable_prefix(m: RadioModel, n: int)
    requires
        0 <= n <= m.options.len(),
        m.options.len() <= usize::MAX,
    ensures
        forall|k: int|
            0 <= k < choosable_prefix(m, n).len() ==> choosable(m, #[trigger] choosable_prefix(m, n)[k] as int)
                && choosable_prefix(m, n)[k] < n,
        forall|j: int, k: int|
            0 <= j < k < choosable_prefix(m, n).len() ==> choosable_prefix(m, n)[j] < choosable_prefix(m, n)[k],
        forall|i: int| 0 <= i < n && #[trigger] choosable(m, i) ==> choosable_prefix(m, n).contains(i as usize),
    decreases n,
{
    if n > 0 {
        lemma_choosable_prefix(m, n - 1);
        let r = choosable_prefix(m, n - 1);
        assert forall|i: int| 0 <= i < n && #[trigger] choosable(m, i) implies choosable_prefix(m, n).contains(i as usize) by {
            if i < n - 1 {
                let k = choose|k: int| 0 <= k < r.len() && r[k] == i as usize;
                assert(choosable_prefix(m, n)[k] == i as usize);
            } else {
                assert(choosable_prefix(m, n)[r.len() as int] == i as usize);
            }
        }
    }
}

/// Whether the group takes keyboard focus: it is enabled and some option can be chosen.
pub open spec fn radio_focusable(m: RadioModel) -> bool {
    !m.disabled && choosable_indices(m).len() > 0
}

/// The option focus lands on when the group gains focus: the first enabled
/// option holding the chosen value, else the first choosable option.
pub open spec fn landing_focus(m: RadioModel) -> Option<usize> {
    if exists|i: int| 0 <= i < m.options.len() && m.options[i].value@ == m.selected && !m.options[i].disabled {
        Some(
            (choose|i: int|
                0 <= i < m.options.len() && m.options[i].value@ == m.selected && !m.options[i].disabled
                    && forall|j: int|
                    0 <= j < i ==> !(m.options[j].value@ == m.selected && !m.options[j].disabled)) as usize,
        )
    } else if choosable_indices(m).len() > 0 {
        Some(choosable_indices(m)[0])
    } else {
        None
    }
}

/// The focus after an arrow key: one choosable option forward (or back),
/// stopping at either end; nothing moves when no option can be chosen.
pub open spec fn stepped_focus(m: RadioModel, forward: bool) -> Option<usize> {
    let sel = choosable_indices(m);
    if sel.len() == 0 {
        m.focused
    } else {
        let cur = match m.focused {
            Some(i) => position_of(sel, i),
            None => 0,
        };
        if forward {
            Some(if cur + 1 < sel.len() { sel[cur + 1] } else { sel[sel.len() - 1] })
        } else {
            Some(if cur >= 1 { sel[cur - 1] } else { sel[0] })
        }
    }
}

/// Choosing option `i` (when it can be chosen and is not already chosen).
pub open spec fn chose(m: RadioModel, i: int) -> RadioModel {
    if choosable(m, i) && m.options[i].value@ != m.selected {
        RadioModel { selected: m.options[i].value@, ..m }
    } else {
        m
    }
}

/// The value reported as newly chosen by `chose(m, i)`, if any.
pub open spec fn chose_reports(r: Option<String>, m: RadioModel, i: int) -> bool {
    if choosable(m, i) && m.options[i].value@ != m.selected {
        r matches Some(v) && v@ == m.options[i].value@
    } else {
        r is None
    }
}

pub open spec fn is_forward_key(key: Key) -> bool {
    key == Key::ArrowDown || key == Key::ArrowRight
}

pub open spec fn is_backward_key(key: Key) -> bool {
    key == Key::ArrowUp || key == Key::ArrowLeft
}

pub open spec fn radio_after_key(m: RadioModel, key: Key) -> RadioModel {
    if m.disabled {
        m
    } else if is_forward_key(key) || is_backward_key(key) {
        if m.focused is Some || radio_focusable(m) {
            let m1 = if m.focused is None { RadioModel { focused: landing_focus(m), ..m } } else { m };
            RadioModel { focused: stepped_focus(m1, is_forward_key(key)), ..m1 }
        } else {
            m
        }
    } else if key == Key::Enter || key == Key::Char(' ') {
        match m.focused {
            Some(i) => chose(m, i as int),
            None => m,
        }
    } else {
        m
    }
}

pub open spec fn radio_key_status(m: RadioModel, key: Key) -> EventStatus {
    if m.disabled {
        EventStatus::Ignored
    } else if is_forward_key(key) || is_backward_key(key) {
        if m.focused is Some || radio_focusable(m) { EventStatus::Consumed } else { EventStatus::Ignored }
    } else if key == Key::Enter || key == Key::Char(' ') {
        if m.focused is Some { EventStatus::Consumed } else { EventStatus::Ignored }
    } else {
        EventStatus::Ignored
    }
}

/// Radio group state.
pub struct RadioGroup {
    options: Vec<RadioGroupOption>,
    selected: String,
    disabled: bool,
    hovered: Option<usize>,
    focused: Option<usize>,
}

impl View for RadioGroup {
    type V = RadioModel;

    closed spec fn view(&self) -> RadioModel {
        RadioModel {
            options: self.options@,
            selected: self.selected@,
            disabled: self.disabled,
            hovered: self.hovered,
            focused: self.focused,
        }
    }
}

pub open spec fn radio_wf(m: RadioModel) -> bool {
    m.options.len() <= usize::MAX
}

impl RadioGroup {
    /// A group over `options`; an empty `selected` means the first option.
    pub fn new(options: Vec<RadioGroupOption>, selected: String) -> (r: Self)
        ensures
            radio_wf(r@),
            r@.options == options@,
            r@.selected == (if options@.len() > 0 && selected@.len() == 0 { options@[0].value@ } else { selected@ }),
            !r@.disabled,
            r@.hovered is None,
            r@.focused is None,
    {
        proof {
            assert(options@.len() == options.len());
        }
        let chosen = if options.len() > 0 && selected.as_str().is_empty() {
            options[0].value.clone()
        } else {
            selected
        };
        RadioGroup { options, selected: chosen, disabled: false, hovered: None, focused: None }
    }

    /// A group built from `(value, label)` pairs.
    pub fn from_pairs(pairs: Vec<(String, String)>, selected: String) -> (r: Self)
        ensures
            radio_wf(r@),
            r@.options.len() == pairs@.len(),
            forall|i: int|
                0 <= i < pairs@.len() ==> r@.options[i] == (RadioGroupOption {
                    value: (#[trigger] pairs@[i]).0,
                    label: pairs@[i].1,
                    disabled: false,
                }),
            r@.selected == (if pairs@.len() > 0 && selected@.len() == 0 { pairs@[0].0@ } else { selected@ }),
            !r@.disabled,
    {
        let mut options: Vec<RadioGroupOption> = Vec::new();
        let mut i: usize = 0;
        while i < pairs.len()
            invariant
                i <= pairs@.len(),
                options@.len() == i,
                forall|k: int|
                    0 <= k < i ==> options@[k] == (RadioGroupOption {
                        value: (#[trigger] pairs@[k]).0,
                        label: pairs@[k].1,
                        disabled: false,
                    }),
            decreases pairs@.len() - i,
        {
            let v = pairs[i].0.clone();
            let l = pairs[i].1.clone();
            options.push(RadioGroupOption::new(v, l));
            i += 1;
        }
        RadioGroup::new(options, selected)
    }

    pub fn disabled(self, v: bool) -> (r: Self)
        requires
            radio_wf(self@),
        ensures
            radio_wf(r@),
            r@ == (RadioModel { disabled: v, ..self@ }),
    {
        RadioGroup { disabled: v, ..self }
    }

    /// Disable the first option whose value is `value` (if there is one).
    pub fn disabled_option(self, value: &str) -> (r: Self)
        requires
            radio_wf(self@),
        ensures
            radio_wf(r@),
            (exists|i: int| 0 <= i < self@.options.len() && self@.options[i].value@ == value@) ==> (exists|k: int|
                0 <= k < self@.options.len() && self@.options[k].value@ == value@
                    && (forall|j: int| 0 <= j < k ==> self@.options[j].value@ != value@)
                    && r@ == (RadioModel {
                        options: self@.options.update(k, RadioGroupOption { disabled: true, ..self@.options[k] }),
                        ..self@
                    })),
            !(exists|i: int| 0 <= i < self@.options.len() && self@.options[i].value@ == value@) ==> r@ == self@,
    {
        let mut s = self;
        let mut i: usize = 0;
        while i < s.options.len()
            invariant
                i <= s@.options.len(),
                s@ == self@,
                forall|j: int| 0 <= j < i ==> s@.options[j].value@ != value@,
            decreases s@.options.len() - i,
        {
            if same_text(s.options[i].value.as_str(), value) {
                let opt = RadioGroupOption {
                    value: s.options[i].value.clone(),
                    label: s.options[i].label.clone(),
                    disabled: true,
                };
                s.options.set(i, opt);
                proof {
                    assert(s@.options =~= self@.options.update(i as int, RadioGroupOption { disabled: true, ..self@.options[i as int] }));
                }
                return s;
            }
            i += 1;
        }
        s
    }

    pub fn options(&self) -> (r: &Vec<RadioGroupOption>)
        ensures
            r@ == self@.options,
    {
        &self.options
    }

    pub fn selected_value(&self) -> (r: &String)
        ensures
            r@ == self@.selected,
    {
        &self.selected
    }

    /// Take the chosen value from outside (the group shares it with others).
    pub fn set_selected(&mut self, value: String)
        ensures
            final(self)@ == (RadioModel { selected: value@, ..old(self)@ }),
    {
        self.selected = value;
    }

    pub fn is_disabled(&self) -> (r: bool)
        ensures
            r == self@.disabled,
    {
        self.disabled
    }

    pub fn hovered_index(&self) -> (r: Option<usize>)
        ensures
            r == self@.hovered,
    {
        self.hovered
    }

    pub fn focused_index(&self) -> (r: Option<usize>)
        ensures
            r == self@.focused,
    {
        self.focused
    }

    /// Whether option `index` holds the chosen value.
    pub fn is_selected(&self, index: usize) -> (r: bool)
        ensures
            r == (index < self@.options.len() && self@.options[index as int].value@ == self@.selected),
    {
        if index < self.options.len() {
            same_text(self.selected.as_str(), self.options[index].value.as_str())
        } else {
            false
        }
    }

    /// The choosable options, in order.
    pub fn selectable_indices(&self) -> (r: Vec<usize>)
        requires
            radio_wf(self@),
        ensures
            r@ == choosable_indices(self@),
    {
        let mut out: Vec<usize> = Vec::new();
        let mut i: usize = 0;
        while i < self.options.len()
            invariant
                i <= self@.options.len(),
                out@ == choosable_prefix(self@, i as int),
            decreases self@.options.len() - i,
        {
            if !self.disabled && !self.options[i].disabled {
                out.push(i);
            }
            i += 1;
        }
        out
    }

    /// Whether the group takes keyboard focus.
    pub fn focusable(&self) -> (r: bool)
        requires
            radio_wf(self@),
        ensures
            r == radio_focusable(self@),
    {
        !self.disabled && self.selectable_indices().len() > 0
    }

    /// Choose option `index`; returns the value when the choice changed.
    fn select_index(&mut self, index: usize) -> (r: Option<String>)
        requires
            radio_wf(old(self)@),
        ensures
            radio_wf(final(self)@),
            final(self)@ == chose(old(self)@, index as int),
            chose_reports(r, old(self)@, index as int),
    {
        if index >= self.options.len() {
            return None;
        }
        if self.options[index].disabled || self.disabled {
            return None;
        }
        if same_text(self.selected.as_str(), self.options[index].value.as_str()) {
            return None;
        }
        let value = self.options[index].value.clone();
        self.selected = value.clone();
        Some(value)
    }

    fn focus_selected_index(&mut self)
        requires
            radio_wf(old(self)@),
        ensures
            radio_wf(final(self)@),
            final(self)@ == (RadioModel { focused: landing_focus(old(self)@), ..old(self)@ }),
    {
        let ghost m = self@;
        let mut i: usize = 0;
        while i < self.options.len()
            invariant
                i <= self@.options.len(),
                self@ == m,
                m == old(self)@,
                radio_wf(m),
                forall|j: int| 0 <= j < i ==> !(m.options[j].value@ == m.selected && !m.options[j].disabled),
            decreases self@.options.len() - i,
        {
            if !self.options[i].disabled && same_text(self.options[i].value.as_str(), self.selected.as_str()) {
                proof {
                    assert(0 <= i < m.options.len() && m.options[i as int].value@ == m.selected
                        && !m.options[i as int].disabled && forall|j: int|
                        0 <= j < i ==> !(m.options[j].value@ == m.selected && !m.options[j].disabled));
                    let w = choose|k: int|
                        0 <= k < m.options.len() && m.options[k].value@ == m.selected && !m.options[k].disabled
                            && forall|j: int|
                            0 <= j < k ==> !(m.options[j].value@ == m.selected && !m.options[j].disabled);
                    assert(0 <= i < m.options.len() && m.options[i as int].value@ == m.selected && !m.options[i as int].disabled);
                    if w < i {
                    }
                    if w > i {
                        assert(!(m.options[i as int].value@ == m.selected && !m.options[i as int].disabled));
                    }
                    assert(w == i);
                    assert(exists|k: int| 0 <= k < m.options.len() && m.options[k].value@ == m.selected && !m.options[k].disabled);
                    assert(landing_focus(m) == Some(i));
                }
                self.focused = Some(i);
                return;
            }
            i += 1;
        }
        let sel = self.selectable_indices();
        self.focused = if sel.len() > 0 { Some(sel[0]) } else { None };
    }

    fn move_focus(&mut self, forward: bool)
        requires
            radio_wf(old(self)@),
        ensures
            radio_wf(final(self)@),
            final(self)@ == (RadioModel { focused: stepped_focus(old(self)@, forward), ..old(self)@ }),
    {
        let sel = self.selectable_indices();
        let n = sel.len();
        if n == 0 {
            return;
        }
        let cur = match self.focused {
            Some(i) => position_in(&sel, i),
            None => 0,
        };
        proof {
            if let Some(i) = self.focused {
                lemma_position_of(sel@, i);
            }
        }
        let next = if forward {
            if cur + 1 < n { sel[cur + 1] } else { sel[n - 1] }
        } else {
            if cur >= 1 { sel[cur - 1] } else { sel[0] }
        };
        self.focused = Some(next);
    }

    pub fn focus_gained(&mut self) -> (r: EventStatus)
        requires
            radio_wf(old(self)@),
        ensures
            radio_wf(final(self)@),
            final(self)@ == (if old(self)@.disabled { old(self)@ } else { RadioModel {
                focused: landing_focus(old(self)@),
                ..old(self)@
            } }),
            r == EventStatus::Ignored,
    {
        if !self.disabled {
            self.focus_selected_index();
        }
        EventStatus::Ignored
    }

    pub fn focus_lost(&mut self) -> (r: EventStatus)
        requires
            radio_wf(old(self)@),
        ensures
            radio_wf(final(self)@),
            final(self)@ == (if old(self)@.disabled { old(self)@ } else { RadioModel { focused: None, ..old(self)@ } }),
            r == EventStatus::Ignored,
    {
        if !self.disabled {
            self.focused = None;
        }
        EventStatus::Ignored
    }

    /// A key press; returns whether it was consumed and the newly chosen
    /// value, if the choice changed.
    pub fn handle_key(&mut self, key: Key) -> (r: (EventStatus, Option<String>))
        requires
            radio_wf(old(self)@),
        ensures
            radio_wf(final(self)@),
            final(self)@ == radio_after_key(old(self)@, key),
            r.0 == radio_key_status(old(self)@, key),
            (key == Key::Enter || key == Key::Char(' ')) && !old(self)@.disabled && old(self)@.focused is Some
                ==> chose_reports(r.1, old(self)@, old(self)@.focused->0 as int),
            !((key == Key::Enter || key == Key::Char(' ')) && !old(self)@.disabled && old(self)@.focused is Some)
                ==> r.1 is None,
    {
        if self.disabled {
            return (EventStatus::Ignored, None);
        }
        match key {
            Key::ArrowDown | Key::ArrowRight | Key::ArrowUp | Key::ArrowLeft => {
                let forward = key == Key::ArrowDown || key == Key::ArrowRight;
                if self.focused.is_some() || self.focusable() {
                    if self.focused.is_none() {
                        self.focus_selected_index();
                    }
                    self.move_focus(forward);
                    return (EventStatus::Consumed, None);
                }
                (EventStatus::Ignored, None)
            },
            Key::Enter | Key::Char(' ') => {
                match self.focused {
                    Some(i) => {
                        let changed = self.select_index(i);
                        (EventStatus::Consumed, changed)
                    },
                    None => (EventStatus::Ignored, None),
                }
            },
            _ => (EventStatus::Ignored, None),
        }
    }

    /// The pointer moved over option `index` (or over none).
    pub fn mouse_move(&mut self, index: Option<usize>) -> (r: EventStatus)
        ensures
            final(self)@ == (if old(self)@.disabled { old(self)@ } else { RadioModel { hovered: index, ..old(self)@ } }),
            r == EventStatus::Ignored,
    {
        if !self.disabled {
            self.hovered = index;
        }
        EventStatus::Ignored
    }

    /// Primary button pressed over option `index` (or over none): the option
    /// takes the focus ring and is chosen.
    pub fn mouse_down(&mut self, index: Option<usize>) -> (r: (EventStatus, Option<String>))
        requires
            radio_wf(old(self)@),
        ensures
            radio_wf(final(self)@),
            old(self)@.disabled || index is None ==> final(self)@ == old(self)@ && r == (EventStatus::Ignored, None::<String>),
            !old(self)@.disabled && index is Some ==> r.0 == EventStatus::Consumed
                && final(self)@ == chose(RadioModel { focused: index, ..old(self)@ }, index->0 as int)
                && chose_reports(r.1, RadioModel { focused: index, ..old(self)@ }, index->0 as int),
    {
        if self.disabled {
            return (EventStatus::Ignored, None);
        }
        match index {
            Some(i) => {
                self.focused = Some(i);
                let changed = self.select_index(i);
                (EventStatus::Consumed, changed)
            },
            None => (EventStatus::Ignored, None),
        }
    }

    /// Cursor shape for a pointer over option `index` (or over none).
    pub fn cursor_style(&self, index: Option<usize>) -> (r: CursorStyle)
        ensures
            r == (if !self@.disabled && index is Some { CursorStyle::Pointer } else { CursorStyle::Default }),
    {
        if !self.disabled && index.is_some() {
            CursorStyle::Pointer
        } else {
            CursorStyle::Default
        }
    }
}

/// Law: whatever the key, the chosen value only ever changes to the value of
/// an option that can be chosen.
pub proof fn lemma_choice_is_choosable(m: RadioModel, key: Key)
    ensures
        radio_after_key(m, key).selected != m.selected ==> exists|i: int|
            choosable(m, i) && radio_after_key(m, key).selected == m.options[i].value@,
{
}

/// Law: an arrow key keeps the focus ring on a choosable option.
pub proof fn lemma_arrows_focus_choosable(m: RadioModel, key: Key)
    requires
        radio_wf(m),
        is_forward_key(key) || is_backward_key(key),
        radio_focusable(m),
    ensures
        radio_after_key(m, key).focused matches Some(f) && choosable(m, f as int),
{
    let m1 = if m.focused is None { RadioModel { focused: landing_focus(m), ..m } } else { m };
    lemma_choosable_prefix(m, m.options.len() as int);
    lemma_choosable_prefix(m1, m1.options.len() as int);
    assert(choosable_indices(m1) == choosable_indices(m)) by {
        assert(m1.options == m.options && m1.disabled == m.disabled);
        lemma_same_choosable(m, m1, m.options.len() as int);
    }
    let sel = choosable_indices(m);
    if let Some(i) = m1.focused {
        lemma_position_of(sel, i);
    }
}

/// Law: from a focused choosable option, ArrowUp/ArrowLeft moves the focus
/// to the nearest choosable option before it, when there is one, and
/// ArrowDown/ArrowRight to the nearest choosable option after it, when
/// there is one; at either end the focus stays.
pub proof fn lemma_arrows_step_to_neighbour(m: RadioModel, key: Key, f: usize)
    requires
        radio_wf(m),
        !m.disabled,
        m.focused == Some(f),
        choosable(m, f as int),
        is_forward_key(key) || is_backward_key(key),
    ensures
        is_backward_key(key) && (exists|j: int| 0 <= j < f && #[trigger] choosable(m, j)) ==> (radio_after_key(
            m,
            key,
        ).focused matches Some(p) && p < f && choosable(m, p as int) && forall|q: int|
            p < q < f ==> !#[trigger] choosable(m, q)),
        is_backward_key(key) && !(exists|j: int| 0 <= j < f && #[trigger] choosable(m, j)) ==> radio_after_key(
            m,
            key,
        ).focused == Some(f),
        is_forward_key(key) && (exists|j: int| f < j && #[trigger] choosable(m, j)) ==> (radio_after_key(
            m,
            key,
        ).focused matches Some(p) && p > f && choosable(m, p as int) && forall|q: int|
            f < q < p ==> !#[trigger] choosable(m, q)),
        is_forward_key(key) && !(exists|j: int| f < j && #[trigger] choosable(m, j)) ==> radio_after_key(
            m,
            key,
        ).focused == Some(f),
{
    let n = m.options.len() as int;
    lemma_choosable_prefix(m, n);
    let sel = choosable_indices(m);
    assert(sel.contains(f));
    lemma_position_of(sel, f);
    let cur = position_of(sel, f);
    assert(sel[cur] == f);
    assert(radio_focusable(m));
    // Indices of `sel` are ordered like the options they name.
    assert forall|j: int, k: int| 0 <= j < sel.len() && 0 <= k < sel.len() && sel[j] < sel[k] implies j < k by {
        if k < j {
            assert(sel[k] < sel[j]);
        } else if k == j {
        }
    }
    if is_backward_key(key) {
        if exists|j: int| 0 <= j < f && #[trigger] choosable(m, j) {
            let j = choose|j: int| 0 <= j < f && #[trigger] choosable(m, j);
            assert(sel.contains(j as usize));
            let kj = choose|k: int| 0 <= k < sel.len() && sel[k] == j as usize;
            assert(kj < cur);
            let p = sel[cur - 1];
            assert(p < f);
            assert forall|q: int| p < q < f implies !#[trigger] choosable(m, q) by {
                if choosable(m, q) {
                    assert(sel.contains(q as usize));
                    let kq = choose|k: int| 0 <= k < sel.len() && sel[k] == q as usize;
                    assert(cur - 1 < kq);
                    assert(kq < cur);
                }
            }
        } else {
            if cur >= 1 {
                assert(sel[cur - 1] < sel[cur]);
                assert(choosable(m, sel[cur - 1] as int));
            }
        }
    } else {
        if exists|j: int| f < j && #[trigger] choosable(m, j) {
            let j = choose|j: int| f < j && #[trigger] choosable(m, j);
            assert(j < n);
            assert(sel.contains(j as usize));
            let kj = choose|k: int| 0 <= k < sel.len() && sel[k] == j as usize;
            assert(cur < kj);
            let p = sel[cur + 1];
            assert(p > f);
            assert forall|q: int| f < q < p implies !#[trigger] choosable(m, q) by {
                if choosable(m, q) {
                    assert(sel.contains(q as usize));
                    let kq = choose|k: int| 0 <= k < sel.len() && sel[k] == q as usize;
                    assert(cur < kq);
                    assert(kq < cur + 1);
                }
            }
        } else {
            if cur + 1 < sel.len() {
                assert(sel[cur] < sel[cur + 1]);
                assert(choosable(m, sel[cur + 1] as int));
            }
        }
    }
}

proof fn lemma_same_choosable(a: RadioModel, b: RadioModel, n: int)
    requires
        a.options == b.options,
        a.disabled == b.disabled,
    ensures
        choosable_prefix(a, n) == choosable_prefix(b, n),
    decreases n,
{
    if n > 0 {
        lemma_same_choosable(a, b, n - 1);
    }
}

} // verus!
