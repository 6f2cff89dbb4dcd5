//! Select: a dropdown option picker, and the menu navigation it shares with
//! `DropdownMenu`.
//!
//! Entries are labels, items (possibly disabled) and separators. Only enabled
//! items can be highlighted or chosen; the arrow keys walk the enabled items
//! in order, stopping at either end.
use crate::event::{EventStatus, Key};
use crate::style::CursorStyle;
use crate::text::same_text;
use vstd::prelude::*;

verus! {

/// A single row inside a select menu.
#[derive(Debug, Clone)]
pub enum SelectEntry {
    /// Non-interactive group heading.
    Label(String),
    /// Selectable option.
    Item { label: String, disabled: bool },
    /// Horizontal rule between groups.
    Separator,
}

impl SelectEntry {
    pub fn item(label: String) -> (r: Self)
        ensures
            r == (SelectEntry::Item { label, disabled: false }),
    {
        SelectEntry::Item { label, disabled: false }
    }

    pub fn item_disabled(label: String) -> (r: Self)
        ensures
            r == (SelectEntry::Item { label, disabled: true }),
    {
        SelectEntry::Item { label, disabled: true }
    }

    pub fn label(text: String) -> (r: Self)
        ensures
            r == SelectEntry::Label(text),
    {
        SelectEntry::Label(text)
    }

    pub fn separator() -> (r: Self)
        ensures
            r == SelectEntry::Separator,
    {
        SelectEntry::Separator
    }

    /// Height of the row in pixels.
    pub fn row_height(&self) -> (r: u32)
        ensures
            r == match *self {
                SelectEntry::Label(_) => 28u32,
                SelectEntry::Item { .. } => 32u32,
                SelectEntry::Separator => 9u32,
            },
    {
        match self {
            SelectEntry::Label(_) => 28,
            SelectEntry::Item { .. } => 32,
            SelectEntry::Separator => 9,
        }
    }

    pub fn is_enabled_item(&self) -> (r: bool)
        ensures
            r == enabled_item(*self),
    {
        match self {
            SelectEntry::Item { disabled, .. } => !*disabled,
            _ => false,
        }
    }
}

/// An item that can be highlighted and chosen.
pub open spec fn enabled_item(e: SelectEntry) -> bool {
    match e {
        SelectEntry::Item { disabled, .. } => !disabled,
        _ => false,
    }
}

/// `i` names an enabled item of `entries`.
pub open spec fn names_enabled(entries: Seq<SelectEntry>, i: int) -> bool {
    0 <= i < entries.len() && enabled_item(entries[i])
}

/// The indices of the enabled items, in order.
pub open spec fn enabled_indices(entries: Seq<SelectEntry>) -> Seq<usize>
    decreases entries.len(),
{
    if entries.len() == 0 {
        Seq::empty()
    } else {
        let rest = enabled_indices(entries.drop_last());
        if enabled_item(entries.last()) {
            rest.push((entries.len() - 1) as usize)
        } else {
            rest
        }
    }
}

/// `enabled_indices` lists exactly the enabled items, in increasing order.
pub proof fn lemma_enabled_indices(entries: Seq<SelectEntry>)
    requires
        entries.len() <= usize::MAX,
    ensures
        forall|k: int|
            0 <= k < enabled_indices(entries).len() ==> names_enabled(
                entries,
                #[trigger] enabled_indices(entries)[k] as int,
            ),
        forall|j: int, k: int|
            0 <= j < k < enabled_indices(entries).len() ==> enabled_indices(entries)[j]
                < enabled_indices(entries)[k],
        forall|i: int|
            #![trigger enabled_item(entries[i])]
            names_enabled(entries, i) ==> enabled_indices(entries).contains(i as usize),
        enabled_indices(entries).len() <= entries.len(),
    decreases entries.len(),
{
    if entries.len() > 0 {
        let p = entries.drop_last();
        lemma_enabled_indices(p);
        let r = enabled_indices(p);
        let n = entries.len() - 1;
        assert forall|k: int| 0 <= k < enabled_indices(entries).len() implies names_enabled(
            entries,
            #[trigger] enabled_indices(entries)[k] as int,
        ) by {
            if k < r.len() {
                assert(enabled_indices(entries)[k] == r[k]);
                assert(names_enabled(p, r[k] as int));
                assert(entries[r[k] as int] == p[r[k] as int]);
            }
        }
        assert forall|i: int| #![trigger enabled_item(entries[i])] names_enabled(entries, i) implies enabled_indices(entries).contains(i as usize) by {
            if i < n {
                assert(p[i] == entries[i]);
                assert(names_enabled(p, i));
                assert(r.contains(i as usize));
                let k = choose|k: int| 0 <= k < r.len() && r[k] == i as usize;
                assert(enabled_indices(entries)[k] == i as usize);
            } else {
                assert(entries.last() == entries[i]);
                assert(enabled_indices(entries)[r.len() as int] == i as usize);
            }
        }
    }
}

/// First position of `x` in `s`, or 0 when `x` is absent.
pub open spec fn position_of(s: Seq<usize>, x: usize) -> int {
    if s.contains(x) {
        choose|k: int| 0 <= k < s.len() && s[k] == x && forall|j: int| 0 <= j < k ==> s[j] != x
    } else {
        0
    }
}

pub proof fn lemma_position_of(s: Seq<usize>, x: usize)
    ensures
        s.contains(x) ==> {
            let k = position_of(s, x);
            0 <= k < s.len() && s[k] == x && forall|j: int| 0 <= j < k ==> s[j] != x
        },
        !s.contains(x) ==> position_of(s, x) == 0,
{
    if s.contains(x) {
        let k0 = choose|k: int| 0 <= k < s.len() && s[k] == x;
        // the least such index exists
        assert(exists|k: int| 0 <= k < s.len() && s[k] == x && forall|j: int| 0 <= j < k ==> s[j] != x) by {
            lemma_least_index(s, x, k0);
        }
    }
}

proof fn lemma_least_index(s: Seq<usize>, x: usize, k0: int)
    requires
        0 <= k0 < s.len(),
        s[k0] == x,
    ensures
        exists|k: int| 0 <= k < s.len() && s[k] == x && forall|j: int| 0 <= j < k ==> s[j] != x,
    decreases k0,
{
    if exists|j: int| 0 <= j < k0 && s[j] == x {
        let j = choose|j: int| 0 <= j < k0 && s[j] == x;
        lemma_least_index(s, x, j);
    } else {
        assert(forall|j: int| 0 <= j < k0 ==> s[j] != x);
    }
}

/// The highlight after ArrowDown: the next enabled item after the current
/// one (or after the first, when nothing is highlighted), stopping at the last.
pub open spec fn down_target(entries: Seq<SelectEntry>, highlighted: Option<usize>) -> usize {
    let sel = enabled_indices(entries);
    let cur = match highlighted {
        Some(h) => h,
        None => sel[0],
    };
    let pos = position_of(sel, cur);
    if pos + 1 < sel.len() {
        sel[pos + 1]
    } else {
        sel[sel.len() - 1]
    }
}

/// The highlight after ArrowUp: the previous enabled item, stopping at the first.
pub open spec fn up_target(entries: Seq<SelectEntry>, highlighted: Option<usize>) -> usize {
    let sel = enabled_indices(entries);
    let cur = match highlighted {
        Some(h) => h,
        None => sel[0],
    };
    let pos = position_of(sel, cur);
    if pos >= 1 {
        sel[pos - 1]
    } else {
        sel[0]
    }
}

/// The enabled items of `entries`, by index, in order.
pub fn selectable_indices(entries: &Vec<SelectEntry>) -> (r: Vec<usize>)
    ensures
        r@ == enabled_indices(entries@),
{
    let mut out: Vec<usize> = Vec::new();
    let mut i: usize = 0;
    while i < entries.len()
        invariant
            i <= entries@.len(),
            out@ == enabled_indices(entries@.take(i as int)),
        decreases entries@.len() - i,
    {
        proof {
            assert(entries@.take(i + 1).drop_last() =~= entries@.take(i as int));
            assert(entries@.take(i + 1).last() == entries@[i as int]);
        }
        if entries[i].is_enabled_item() {
            out.push(i);
        }
        i += 1;
    }
    proof {
        assert(entries@.take(i as int) =~= entries@);
    }
    out
}

/// First position of `x` in `s`, or 0 when absent.
pub fn position_in(s: &Vec<usize>, x: usize) -> (r: usize)
    ensures
        r == position_of(s@, x),
{
    proof {
        lemma_position_of(s@, x);
    }
    let mut k: usize = 0;
    while k < s.len()
        invariant
            k <= s@.len(),
            forall|j: int| 0 <= j < k ==> s@[j] != x,
        decreases s@.len() - k,
    {
        if s[k] == x {
            proof {
                assert(s@.contains(x));
                let p = position_of(s@, x);
                if p < k {
                    assert(s@[p] != x);
                }
                if p > k {
                    assert(s@[k as int] != x);
                }
            }
            return k;
        }
        k += 1;
    }
    proof {
        assert(!s@.contains(x));
    }
    0
}

/// The highlight after ArrowDown, when some item is enabled.
pub fn move_down(entries: &Vec<SelectEntry>, highlighted: Option<usize>) -> (r: usize)
    requires
        enabled_indices(entries@).len() > 0,
    ensures
        r == down_target(entries@, highlighted),
        names_enabled(entries@, r as int),
{
    let sel = selectable_indices(entries);
    let n = sel.len();
    proof {
        assert(entries@.len() == entries.len());
        lemma_enabled_indices(entries@);
    }
    let cur = match highlighted {
        Some(h) => h,
        None => sel[0],
    };
    let pos = position_in(&sel, cur);
    proof {
        lemma_position_of(sel@, cur);
    }
    let next = if pos + 1 < n { pos + 1 } else { n - 1 };
    sel[next]
}

/// The highlight after ArrowUp, when some item is enabled.
pub fn move_up(entries: &Vec<SelectEntry>, highlighted: Option<usize>) -> (r: usize)
    requires
        enabled_indices(entries@).len() > 0,
    ensures
        r == up_target(entries@, highlighted),
        names_enabled(entries@, r as int),
{
    let sel = selectable_indices(entries);
    let n = sel.len();
    proof {
        assert(entries@.len() == entries.len());
        lemma_enabled_indices(entries@);
    }
    let cur = match highlighted {
        Some(h) => h,
        None => sel[0],
    };
    let pos = position_in(&sel, cur);
    proof {
        lemma_position_of(sel@, cur);
    }
    let next = if pos >= 1 { pos - 1 } else { 0 };
    sel[next]
}

/// Law: from an enabled item that is not the last one, ArrowDown then
/// ArrowUp comes back to it; from one that is not the first, ArrowUp then
/// ArrowDown does.
pub proof fn lemma_down_up_round_trip(entries: Seq<SelectEntry>, h: usize)
    requires
        entries.len() <= usize::MAX,
        names_enabled(entries, h as int),
    ensures
        h != enabled_indices(entries).last() ==> up_target(entries, Some(down_target(entries, Some(h)))) == h,
        h != enabled_indices(entries)[0] ==> down_target(entries, Some(up_target(entries, Some(h)))) == h,
{
    lemma_enabled_indices(entries);
    let sel = enabled_indices(entries);
    assert(sel.contains(h));
    lemma_position_of(sel, h);
    let p = position_of(sel, h);
    if h != sel.last() {
        assert(p + 1 < sel.len());
        let d = sel[p + 1];
        assert(sel.contains(d));
        lemma_position_of(sel, d);
        let q = position_of(sel, d);
        if q < p + 1 {
            assert(sel[q] < sel[p + 1]);
        }
        if q > p + 1 {
            assert(sel[p + 1] < sel[q]);
        }
    }
    if h != sel[0] {
        assert(p >= 1);
        let u = sel[p - 1];
        assert(sel.contains(u));
        lemma_position_of(sel, u);
        let q = position_of(sel, u);
        if q < p - 1 {
            assert(sel[q] < sel[p - 1]);
        }
        if q > p - 1 {
            assert(sel[p - 1] < sel[q]);
        }
    }
}

/// The text of an entry (empty for a separator).
pub open spec fn entry_text(e: SelectEntry) -> Seq<char> {
    match e {
        SelectEntry::Label(t) => t@,
        SelectEntry::Item { label, .. } => label@,
        SelectEntry::Separator => Seq::empty(),
    }
}

/// The state of a `Select`.
pub ghost struct SelectModel {
    pub entries: Seq<SelectEntry>,
    pub placeholder: Seq<char>,
    /// Index into `entries` of the chosen item.
    pub selected: Option<usize>,
    /// Index into `entries` of the item under the keyboard/pointer highlight.
    pub highlighted: Option<usize>,
    pub open: bool,
    pub disabled: bool,
    pub invalid: bool,
    pub hovered: bool,
    pub focused: bool,
}

/// Selection and highlight only ever name enabled items.
pub open spec fn select_wf(m: SelectModel) -> bool {
    &&& m.entries.len() <= usize::MAX
    &&& m.selected matches Some(i) ==> names_enabled(m.entries, i as int)
    &&& m.highlighted matches Some(h) ==> names_enabled(m.entries, h as int)
}

pub open spec fn closed_menu(m: SelectModel) -> SelectModel {
    SelectModel { open: false, highlighted: None, ..m }
}

/// Opening highlights the chosen item, or else the first enabled one; with
/// no enabled item the menu stays closed.
pub open spec fn opened(m: SelectModel) -> SelectModel {
    let sel = enabled_indices(m.entries);
    if sel.len() == 0 {
        SelectModel { open: false, ..m }
    } else {
        SelectModel {
            open: true,
            highlighted: Some(
                match m.selected {
                    Some(s) => s,
                    None => sel[0],
                },
            ),
            ..m
        }
    }
}

pub open spec fn committed(m: SelectModel, i: usize) -> SelectModel {
    closed_menu(SelectModel { selected: Some(i), ..m })
}

pub open spec fn is_activation_key(key: Key) -> bool {
    key == Key::Enter || key == Key::Char(' ')
}

/// The state after a key press.
pub open spec fn select_after_key(m: SelectModel, key: Key) -> SelectModel {
    if m.disabled {
        m
    } else if key == Key::Escape {
        if m.open { closed_menu(m) } else { m }
    } else if is_activation_key(key) {
        if !m.focused {
            m
        } else if m.open {
            match m.highlighted {
                Some(i) => committed(m, i),
                None => closed_menu(m),
            }
        } else {
            opened(m)
        }
    } else if key == Key::ArrowDown || key == Key::ArrowUp {
        if !m.focused {
            m
        } else if !m.open {
            opened(m)
        } else if enabled_indices(m.entries).len() == 0 {
            m
        } else if key == Key::ArrowDown {
            SelectModel { highlighted: Some(down_target(m.entries, m.highlighted)), ..m }
        } else {
            SelectModel { highlighted: Some(up_target(m.entries, m.highlighted)), ..m }
        }
    } else {
        m
    }
}

/// Whether a key press is consumed.
pub open spec fn select_key_status(m: SelectModel, key: Key) -> EventStatus {
    if m.disabled {
        EventStatus::Ignored
    } else if key == Key::Escape {
        if m.open { EventStatus::Consumed } else { EventStatus::Ignored }
    } else if is_activation_key(key) {
        if m.focused { EventStatus::Consumed } else { EventStatus::Ignored }
    } else if key == Key::ArrowDown || key == Key::ArrowUp {
        if !m.focused {
            EventStatus::Ignored
        } else if !m.open {
            EventStatus::Consumed
        } else if enabled_indices(m.entries).len() == 0 {
            EventStatus::Ignored
        } else {
            EventStatus::Consumed
        }
    } else {
        EventStatus::Ignored
    }
}

/// The item a key press chooses, if any.
pub open spec fn select_key_commit(m: SelectModel, key: Key) -> Option<usize> {
    if !m.disabled && is_activation_key(key) && m.focused && m.open {
        m.highlighted
    } else {
        None
    }
}

/// The new label reported for a chosen item.
pub open spec fn reports(r: Option<String>, entries: Seq<SelectEntry>, chosen: Option<usize>) -> bool {
    match chosen {
        Some(i) => (r matches Some(l) && l@ == entry_text(entries[i as int])),
        None => r is None,
    }
}

/// Select widget: a trigger showing the chosen item, and a menu of entries.
pub struct Select {
    entries: Vec<SelectEntry>,
    placeholder: String,
    selected: Option<usize>,
    highlighted: Option<usize>,
    open: bool,
    disabled: bool,
    invalid: bool,
    hovered: bool,
    focused: bool,
}

impl View for Select {
    type V = SelectModel;

    closed spec fn view(&self) -> SelectModel {
        SelectModel {
            entries: self.entries@,
            placeholder: self.placeholder@,
            selected: self.selected,
            highlighted: self.highlighted,
            open: self.open,
            disabled: self.disabled,
            invalid: self.invalid,
            hovered: self.hovered,
            focused: self.focused,
        }
    }
}

/// The placeholder a new select shows.
pub fn default_placeholder() -> (r: String)
    ensures
        r@ == "Select…"@,
{
    "Select…".to_owned()
}

impl Select {
    /// A select over plain options, each an enabled item.
    pub fn new(options: Vec<String>) -> (r: Self)
        ensures
            select_wf(r@),
            r@.entries.len() == options@.len(),
            forall|i: int|
                0 <= i < options@.len() ==> r@.entries[i] == (SelectEntry::Item {
                    label: #[trigger] options@[i],
                    disabled: false,
                }),
            r@.placeholder == "Select…"@,
            r@.selected is None && r@.highlighted is None,
            !r@.open && !r@.disabled && !r@.invalid && !r@.hovered && !r@.focused,
    {
        let mut entries: Vec<SelectEntry> = Vec::new();
        let mut i: usize = 0;
        while i < options.len()
            invariant
                i <= options@.len(),
                entries@.len() == i,
                forall|k: int|
                    0 <= k < i ==> entries@[k] == (SelectEntry::Item {
                        label: #[trigger] options@[k],
                        disabled: false,
                    }),
            decreases options@.len() - i,
        {
            entries.push(SelectEntry::item(options[i].clone()));
            i += 1;
        }
        Select::from_entries(entries)
    }

    /// A select over labels, items and separators.
    pub fn from_entries(entries: Vec<SelectEntry>) -> (r: Self)
        ensures
            select_wf(r@),
            r@ == (SelectModel {
                entries: entries@,
                placeholder: "Select…"@,
                selected: None,
                highlighted: None,
                open: false,
                disabled: false,
                invalid: false,
                hovered: false,
                focused: false,
            }),
    {
        proof {
            assert(entries@.len() == entries.len());
        }
        Select {
            entries,
            placeholder: default_placeholder(),
            selected: None,
            highlighted: None,
            open: false,
            disabled: false,
            invalid: false,
            hovered: false,
            focused: false,
        }
    }

    pub fn placeholder(self, s: String) -> (r: Self)
        requires
            select_wf(self@),
        ensures
            select_wf(r@),
            r@ == (SelectModel { placeholder: s@, ..self@ }),
    {
        Select { placeholder: s, ..self }
    }

    /// Disabling also closes the menu.
    pub fn disabled(self, v: bool) -> (r: Self)
        requires
            select_wf(self@),
        ensures
            select_wf(r@),
            v ==> r@ == closed_menu(SelectModel { disabled: true, ..self@ }),
            !v ==> r@ == (SelectModel { disabled: false, ..self@ }),
    {
        if v {
            Select { disabled: true, open: false, highlighted: None, ..self }
        } else {
            Select { disabled: false, ..self }
        }
    }

    pub fn invalid(self, v: bool) -> (r: Self)
        requires
            select_wf(self@),
        ensures
            select_wf(r@),
            r@ == (SelectModel { invalid: v, ..self@ }),
    {
        Select { invalid: v, ..self }
    }

    /// Pre-select the `item_index`-th enabled item (0 = first); an index past
    /// the enabled items changes nothing.
    pub fn selected(self, item_index: usize) -> (r: Self)
        requires
            select_wf(self@),
        ensures
            select_wf(r@),
            item_index < enabled_indices(self@.entries).len() ==> r@ == (SelectModel {
                selected: Some(enabled_indices(self@.entries)[item_index as int]),
                ..self@
            }),
            item_index >= enabled_indices(self@.entries).len() ==> r@ == self@,
    {
        let sel = selectable_indices(&self.entries);
        proof {
            lemma_enabled_indices(self.entries@);
        }
        if item_index < sel.len() {
            let idx = sel[item_index];
            Select { selected: Some(idx), ..self }
        } else {
            self
        }
    }

    /// Pre-select the first enabled item labelled `value`; when there is
    /// none, nothing changes.
    pub fn selected_value(self, value: &str) -> (r: Self)
        requires
            select_wf(self@),
        ensures
            select_wf(r@),
            (exists|i: int| names_enabled(self@.entries, i) && entry_text(self@.entries[i]) == value@)
                ==> (r@.selected matches Some(k) && names_enabled(self@.entries, k as int)
                && entry_text(self@.entries[k as int]) == value@
                && (forall|j: int| 0 <= j < k ==> !(names_enabled(self@.entries, j)
                    && entry_text(self@.entries[j]) == value@))
                && r@ == (SelectModel { selected: Some(k), ..self@ })),
            !(exists|i: int| names_enabled(self@.entries, i) && entry_text(self@.entries[i]) == value@)
                ==> r@ == self@,
    {
        let mut i: usize = 0;
        while i < self.entries.len()
            invariant
                i <= self@.entries.len(),
                select_wf(self@),
                forall|j: int| 0 <= j < i ==> !(names_enabled(self@.entries, j)
                    && entry_text(self@.entries[j]) == value@),
            decreases self@.entries.len() - i,
        {
            let hit = match &self.entries[i] {
                SelectEntry::Item { label, disabled } => !*disabled && same_text(label.as_str(), value),
                _ => false,
            };
            if hit {
                proof {
                    assert(names_enabled(self@.entries, i as int) && entry_text(self@.entries[i as int])
                        == value@);
                }
                return Select { selected: Some(i), ..self };
            }
            i += 1;
        }
        self
    }

    // ── Queries ─────────────────────────────────────────────────────────────

    pub fn entries(&self) -> (r: &Vec<SelectEntry>)
        ensures
            r@ == self@.entries,
    {
        &self.entries
    }

    pub fn placeholder_text(&self) -> (r: &String)
        ensures
            r@ == self@.placeholder,
    {
        &self.placeholder
    }

    pub fn selected_index(&self) -> (r: Option<usize>)
        ensures
            r == self@.selected,
    {
        self.selected
    }

    pub fn highlighted_index(&self) -> (r: Option<usize>)
        ensures
            r == self@.highlighted,
    {
        self.highlighted
    }

    pub fn is_open(&self) -> (r: bool)
        ensures
            r == self@.open,
    {
        self.open
    }

    pub fn is_disabled(&self) -> (r: bool)
        ensures
            r == self@.disabled,
    {
        self.disabled
    }

    pub fn is_invalid(&self) -> (r: bool)
        ensures
            r == self@.invalid,
    {
        self.invalid
    }

    pub fn is_focused(&self) -> (r: bool)
        ensures
            r == self@.focused,
    {
        self.focused
    }

    pub fn is_hovered(&self) -> (r: bool)
        ensures
            r == self@.hovered,
    {
        self.hovered
    }

    /// The label of the chosen item, if any.
    pub fn selected_label(&self) -> (r: Option<&String>)
        requires
            select_wf(self@),
        ensures
            self@.selected is None ==> r is None,
            self@.selected matches Some(i) ==> (r matches Some(l) && l@ == entry_text(
                self@.entries[i as int],
            )),
    {
        match self.selected {
            Some(i) => match &self.entries[i] {
                SelectEntry::Item { label, .. } => Some(label),
                SelectEntry::Label(t) => Some(t),
                SelectEntry::Separator => None,
            },
            None => None,
        }
    }

    /// Cursor shape for a pointer over (or away from) the control or menu.
    pub fn cursor_style(&self, over: bool) -> (r: CursorStyle)
        ensures
            r == (if !self@.disabled && over { CursorStyle::Pointer } else { CursorStyle::Default }),
    {
        if !self.disabled && over {
            CursorStyle::Pointer
        } else {
            CursorStyle::Default
        }
    }

    // ── Transitions ─────────────────────────────────────────────────────────

    fn close(&mut self)
        requires
            select_wf(old(self)@),
        ensures
            select_wf(final(self)@),
            final(self)@ == closed_menu(old(self)@),
    {
        self.open = false;
        self.highlighted = None;
    }

    fn open_menu(&mut self)
        requires
            select_wf(old(self)@),
        ensures
            select_wf(final(self)@),
            final(self)@ == opened(old(self)@),
    {
        let sel = selectable_indices(&self.entries);
        proof {
            lemma_enabled_indices(self.entries@);
        }
        if sel.len() == 0 {
            self.open = false;
            return;
        }
        self.open = true;
        self.highlighted = match self.selected {
            Some(s) => Some(s),
            None => Some(sel[0]),
        };
    }

    fn commit(&mut self, idx: usize) -> (r: Option<String>)
        requires
            select_wf(old(self)@),
            names_enabled(old(self)@.entries, idx as int),
        ensures
            select_wf(final(self)@),
            final(self)@ == committed(old(self)@, idx),
            reports(r, old(self)@.entries, Some(idx)),
    {
        let label = match &self.entries[idx] {
            SelectEntry::Item { label, .. } => label.clone(),
            SelectEntry::Label(t) => t.clone(),
            SelectEntry::Separator => String::new(),
        };
        self.selected = Some(idx);
        self.close();
        Some(label)
    }

    pub fn focus_gained(&mut self) -> (r: EventStatus)
        requires
            select_wf(old(self)@),
        ensures
            select_wf(final(self)@),
            final(self)@ == (if old(self)@.disabled { old(self)@ } else { SelectModel { focused: true, ..old(self)@ } }),
            r == EventStatus::Ignored,
    {
        if !self.disabled {
            self.focused = true;
        }
        EventStatus::Ignored
    }

    pub fn focus_lost(&mut self) -> (r: EventStatus)
        requires
            select_wf(old(self)@),
        ensures
            select_wf(final(self)@),
            final(self)@ == (if old(self)@.disabled { old(self)@ } else { closed_menu(SelectModel { focused: false, ..old(self)@ }) }),
            r == EventStatus::Ignored,
    {
        if !self.disabled {
            self.focused = false;
            self.close();
        }
        EventStatus::Ignored
    }

    /// A key press; returns whether it was consumed and, when it chose an
    /// item, that item's label.
    pub fn handle_key(&mut self, key: Key) -> (r: (EventStatus, Option<String>))
        requires
            select_wf(old(self)@),
        ensures
            select_wf(final(self)@),
            final(self)@ == select_after_key(old(self)@, key),
            r.0 == select_key_status(old(self)@, key),
            reports(r.1, old(self)@.entries, select_key_commit(old(self)@, key)),
    {
        if self.disabled {
            return (EventStatus::Ignored, None);
        }
        match key {
            Key::Escape => {
                if self.open {
                    self.close();
                    return (EventStatus::Consumed, None);
                }
                (EventStatus::Ignored, None)
            },
            Key::Enter | Key::Char(' ') => {
                if !self.focused {
                    return (EventStatus::Ignored, None);
                }
                if self.open {
                    match self.highlighted {
                        Some(i) => {
                            let label = self.commit(i);
                            (EventStatus::Consumed, label)
                        },
                        None => {
                            self.close();
                            (EventStatus::Consumed, None)
                        },
                    }
                } else {
                    self.open_menu();
                    (EventStatus::Consumed, None)
                }
            },
            Key::ArrowDown | Key::ArrowUp => {
                if !self.focused {
                    return (EventStatus::Ignored, None);
                }
                if !self.open {
                    self.open_menu();
                    return (EventStatus::Consumed, None);
                }
                let sel = selectable_indices(&self.entries);
                if sel.len() == 0 {
                    return (EventStatus::Ignored, None);
                }
                let next = if key == Key::ArrowDown {
                    move_down(&self.entries, self.highlighted)
                } else {
                    move_up(&self.entries, self.highlighted)
                };
                self.highlighted = Some(next);
                (EventStatus::Consumed, None)
            },
            _ => (EventStatus::Ignored, None),
        }
    }

    /// The pointer moved: `on_control` tells whether it is over the trigger,
    /// `entry` which enabled item of the open menu is under it.
    pub fn mouse_move(&mut self, on_control: bool, entry: Option<usize>) -> (r: EventStatus)
        requires
            select_wf(old(self)@),
            entry matches Some(i) ==> names_enabled(old(self)@.entries, i as int),
        ensures
            select_wf(final(self)@),
            old(self)@.disabled ==> final(self)@ == old(self)@,
            !old(self)@.disabled ==> final(self)@ == (SelectModel {
                hovered: on_control,
                highlighted: if old(self)@.open { entry } else { old(self)@.highlighted },
                ..old(self)@
            }),
            r == EventStatus::Ignored,
    {
        if self.disabled {
            return EventStatus::Ignored;
        }
        self.hovered = on_control;
        if self.open {
            self.highlighted = entry;
        }
        EventStatus::Ignored
    }

    /// Primary button pressed: on the trigger it toggles the menu; on an
    /// enabled item of the open menu it chooses that item; elsewhere it
    /// closes an open menu. Returns the chosen label, if any.
    pub fn mouse_down(&mut self, on_control: bool, on_menu: bool, entry: Option<usize>) -> (r: (
        EventStatus,
        Option<String>,
    ))
        requires
            select_wf(old(self)@),
            entry matches Some(i) ==> names_enabled(old(self)@.entries, i as int),
        ensures
            select_wf(final(self)@),
            old(self)@.disabled ==> final(self)@ == old(self)@ && r.0 == EventStatus::Ignored && r.1 is None,
            !old(self)@.disabled && on_control ==> r.0 == EventStatus::Consumed && r.1 is None
                && final(self)@ == (if old(self)@.open { closed_menu(old(self)@) } else { opened(old(self)@) }),
            !old(self)@.disabled && !on_control && old(self)@.open && on_menu ==> r.0 == EventStatus::Consumed
                && reports(r.1, old(self)@.entries, entry)
                && final(self)@ == (match entry {
                    Some(i) => committed(old(self)@, i),
                    None => old(self)@,
                }),
            !old(self)@.disabled && !on_control && old(self)@.open && !on_menu ==> r.0 == EventStatus::Consumed
                && r.1 is None && final(self)@ == closed_menu(old(self)@),
            !old(self)@.disabled && !on_control && !old(self)@.open ==> r.0 == EventStatus::Ignored
                && r.1 is None && final(self)@ == old(self)@,
    {
        if self.disabled {
            return (EventStatus::Ignored, None);
        }
        if on_control {
            if self.open {
                self.close();
            } else {
                self.open_menu();
            }
            return (EventStatus::Consumed, None);
        }
        if self.open && on_menu {
            let label = match entry {
                Some(i) => self.commit(i),
                None => None,
            };
            return (EventStatus::Consumed, label);
        }
        if self.open {
            self.close();
            return (EventStatus::Consumed, None);
        }
        (EventStatus::Ignored, None)
    }
}

/// Shorthand: a select over plain options.
pub fn select(options: Vec<String>) -> (r: Select)
    ensures
        select_wf(r@),
        r@.entries.len() == options@.len(),
        forall|i: int|
            0 <= i < options@.len() ==> r@.entries[i] == (SelectEntry::Item {
                label: #[trigger] options@[i],
                disabled: false,
            }),
        r@.placeholder == "Select…"@,
        r@.selected is None && r@.highlighted is None,
        !r@.open && !r@.disabled && !r@.invalid && !r@.hovered && !r@.focused,
{
    Select::new(options)
}

/// Shorthand: a select over grouped entries.
pub fn select_entries(entries: Vec<SelectEntry>) -> (r: Select)
    ensures
        select_wf(r@),
        r@ == (SelectModel {
            entries: entries@,
            placeholder: "Select…"@,
            selected: None,
            highlighted: None,
            open: false,
            disabled: false,
            invalid: false,
            hovered: false,
            focused: false,
        }),
{
    Select::from_entries(entries)
}

/// Law: after any key press the chosen item, if any, is an enabled item;
/// Escape closes an open menu without changing the choice.
pub proof fn lemma_escape_keeps_choice(m: SelectModel)
    requires
        select_wf(m),
        !m.disabled,
        m.open,
    ensures
        select_after_key(m, Key::Escape).selected == m.selected,
        !select_after_key(m, Key::Escape).open,
{
}

} // verus!
