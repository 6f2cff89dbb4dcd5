//! Accordion: collapsible sections identified by value. In single mode
//! opening a section closes the others; in multiple mode sections open and
//! close independently; a non-collapsible single accordion keeps its open
//! section open.
use crate::event::{EventStatus, Key};
use crate::text::same_text;
use vstd::prelude::*;

verus! {

/// One collapsible section (its content is drawn by the backend).
#[derive(Debug, Clone)]
pub struct AccordionItem {
    pub value: String,
    pub title: String,
    pub disabled: bool,
}

impl AccordionItem {
    pub fn new(value: String, title: String) -> (r: Self)
        ensures
            r == (AccordionItem { value, title, disabled: false }),
    {
        AccordionItem { value, title, disabled: false }
    }

    pub fn disabled(self, v: bool) -> (r: Self)
        ensures
            r == (AccordionItem { disabled: v, ..self }),
    {
        AccordionItem { disabled: v, ..self }
    }
}

pub ghost struct AccordionModel {
    pub items: Seq<AccordionItem>,
    /// Values of the open sections.
    pub open: Seq<String>,
    pub multiple: bool,
    pub collapsible: bool,
    pub hovered: Option<usize>,
    pub focused: Option<usize>,
}

/// Some open entry has the value `v`.
pub open spec fn opened_in(open: Seq<String>, v: Seq<char>) -> bool {
    exists|i: int| 0 <= i < open.len() && #[trigger] open[i]@ == v
}

/// `open` without the entries whose value is `v`, in order.
pub open spec fn without_value(open: Seq<String>, v: Seq<char>) -> Seq<String>
    decreases open.len(),
{
    if open.len() == 0 {
        open
    } else {
        let rest = without_value(open.drop_last(), v);
        if open.last()@ == v {
            rest
        } else {
            rest.push(open.last())
        }
    }
}

/// Toggling section `i`.
pub open spec fn accordion_toggled(m: AccordionModel, i: int) -> AccordionModel {
    if !(0 <= i < m.items.len()) || m.items[i].disabled {
        m
    } else {
        let item = m.items[i];
        if opened_in(m.open, item.value@) {
            if m.collapsible || m.multiple {
                AccordionModel { open: without_value(m.open, item.value@), ..m }
            } else {
                m
            }
        } else if m.multiple {
            AccordionModel { open: m.open.push(item.value), ..m }
        } else {
            AccordionModel { open: seq![item.value], ..m }
        }
    }
}

pub struct Accordion {
    items: Vec<AccordionItem>,
    open: Vec<String>,
    multiple: bool,
    collapsible: bool,
    hovered: Option<usize>,
    focused: Option<usize>,
}

impl View for Accordion {
    type V = AccordionModel;

    closed spec fn view(&self) -> AccordionModel {
        AccordionModel {
            items: self.items@,
            open: self.open@,
            multiple: self.multiple,
            collapsible: self.collapsible,
            hovered: self.hovered,
            focused: self.focused,
        }
    }
}

impl Accordion {
    /// All sections closed, single mode, collapsible.
    pub fn new(items: Vec<AccordionItem>) -> (r: Self)
        ensures
            r@ == (AccordionModel {
                items: items@,
                open: Seq::empty(),
                multiple: false,
                collapsible: true,
                hovered: None,
                focused: None,
            }),
    {
        Accordion { items, open: Vec::new(), multiple: false, collapsible: true, hovered: None, focused: None }
    }

    pub fn default_open(self, values: Vec<String>) -> (r: Self)
        ensures
            r@ == (AccordionModel { open: values@, ..self@ }),
    {
        Accordion { open: values, ..self }
    }

    pub fn multiple(self, v: bool) -> (r: Self)
        ensures
            r@ == (AccordionModel { multiple: v, ..self@ }),
    {
        Accordion { multiple: v, ..self }
    }

    pub fn collapsible(self, v: bool) -> (r: Self)
        ensures
            r@ == (AccordionModel { collapsible: v, ..self@ }),
    {
        Accordion { collapsible: v, ..self }
    }

    pub fn items(&self) -> (r: &Vec<AccordionItem>)
        ensures
            r@ == self@.items,
    {
        &self.items
    }

    pub fn open_values(&self) -> (r: &Vec<String>)
        ensures
            r@ == self@.open,
    {
        &self.open
    }

    pub fn hovered_index(&self) -> (r: Option<usize>)
        ensures
            r == self@.hovered,
    {
        self.hovered
    }

    pub fn focused_index(&self) -> (r: Option<usize>)
        ensures
            r == self@.focused,
    {
        self.focused
    }

    /// Whether the section with this value is open.
    pub fn is_open(&self, value: &str) -> (r: bool)
        ensures
            r == opened_in(self@.open, value@),
    {
        let mut i: usize = 0;
        while i < self.open.len()
            invariant
                i <= self.open@.len(),
                forall|k: int| 0 <= k < i ==> self.open@[k]@ != value@,
            decreases self.open@.len() - i,
        {
            if same_text(self.open[i].as_str(), value) {
                return true;
            }
            i += 1;
        }
        false
    }

    fn remove_open(&mut self, value: &str)
        ensures
            final(self)@ == (AccordionModel { open: without_value(old(self)@.open, value@), ..old(self)@ }),
    {
        let ghost old_s = self.open@;
        let mut i: usize = 0;
        let ghost mut j: int = 0;
        while i < self.open.len()
            invariant
                0 <= i <= j <= old_s.len(),
                i <= self.open@.len(),
                self.open@.take(i as int) == without_value(old_s.take(j), value@),
                self.open@.skip(i as int) == old_s.skip(j),
                self.items == old(self).items,
                self.multiple == old(self).multiple,
                self.collapsible == old(self).collapsible,
                self.hovered == old(self).hovered,
                self.focused == old(self).focused,
            decreases self.open@.len() - i,
        {
            let ghost before = self.open@;
            let ghost bi = i;
            proof {
                assert(before.skip(i as int).len() == before.len() - i);
                assert(old_s.skip(j).len() > 0);
                assert(j < old_s.len());
                assert(before.skip(i as int)[0] == before[i as int]);
                assert(old_s.skip(j)[0] == old_s[j]);
                assert(old_s.take(j + 1).drop_last() =~= old_s.take(j));
                assert(old_s.take(j + 1).last() == old_s[j]);
            }
            if same_text(self.open[i].as_str(), value) {
                self.open.remove(i);
                proof {
                    assert(self.open@.take(i as int) =~= before.take(i as int));
                    assert forall|k: int| 0 <= k < old_s.len() - (j + 1) implies
                        #[trigger] self.open@.skip(i as int)[k] == old_s.skip(j + 1)[k] by {
                        assert(before.skip(bi as int)[k + 1] == old_s.skip(j as int)[k + 1]);
                    }
                    assert(self.open@.skip(i as int) =~= old_s.skip(j + 1));
                }
            } else {
                i += 1;
                proof {
                    assert(self.open@.take(i as int) =~= before.take(i - 1).push(before[i - 1]));
                    assert forall|k: int| 0 <= k < old_s.len() - (j + 1) implies
                        #[trigger] self.open@.skip(i as int)[k] == old_s.skip(j + 1)[k] by {
                        assert(before.skip(bi as int)[k + 1] == old_s.skip(j as int)[k + 1]);
                    }
                    assert(self.open@.skip(i as int) =~= old_s.skip(j + 1));
                }
            }
            proof {
                j = j + 1;
            }
        }
        proof {
            assert(old_s.skip(j).len() == 0);
            assert(old_s.take(j) =~= old_s);
            assert(self.open@.take(i as int) =~= self.open@);
        }
    }

    /// Open or close section `index` (disabled sections and out-of-range
    /// indices change nothing).
    pub fn toggle(&mut self, index: usize)
        ensures
            final(self)@ == accordion_toggled(old(self)@, index as int),
    {
        if index >= self.items.len() {
            return;
        }
        if self.items[index].disabled {
            return;
        }
        let value = self.items[index].value.clone();
        if self.is_open(value.as_str()) {
            if self.collapsible || self.multiple {
                self.remove_open(value.as_str());
            }
        } else if self.multiple {
            self.open.push(value);
        } else {
            let mut only: Vec<String> = Vec::new();
            only.push(value);
            self.open = only;
            proof {
                assert(self.open@ =~= seq![old(self)@.items[index as int].value]);
            }
        }
    }

    pub fn focus_lost(&mut self) -> (r: EventStatus)
        ensures
            final(self)@ == (AccordionModel { focused: None, ..old(self)@ }),
            r == EventStatus::Ignored,
    {
        self.focused = None;
        EventStatus::Ignored
    }

    /// Enter or Space toggles the focused section. Returns whether consumed
    /// and whether the key belongs to the open sections' content instead.
    pub fn handle_key(&mut self, key: Key) -> (r: (EventStatus, bool))
        ensures
            (key == Key::Enter || key == Key::Char(' ')) ==> !r.1 && match old(self)@.focused {
                Some(i) => final(self)@ == accordion_toggled(old(self)@, i as int) && r.0 == EventStatus::Consumed,
                None => final(self)@ == old(self)@ && r.0 == EventStatus::Ignored,
            },
            !(key == Key::Enter || key == Key::Char(' ')) ==> r.1 && final(self)@ == old(self)@ && r.0
                == EventStatus::Ignored,
    {
        let activation = match key {
            Key::Enter => true,
            Key::Char(c) => c == ' ',
            _ => false,
        };
        if !activation {
            return (EventStatus::Ignored, true);
        }
        match self.focused {
            Some(i) => {
                self.toggle(i);
                (EventStatus::Consumed, false)
            },
            None => (EventStatus::Ignored, false),
        }
    }

    /// The pointer moved over header `index` (or over none).
    pub fn mouse_move(&mut self, index: Option<usize>)
        ensures
            final(self)@ == (AccordionModel { hovered: index, ..old(self)@ }),
    {
        self.hovered = index;
    }

    /// Primary press on header `index`: it takes focus and toggles. A press
    /// on no header belongs to the open sections' content (`Ignored`).
    pub fn mouse_down(&mut self, index: Option<usize>) -> (r: EventStatus)
        ensures
            index matches Some(i) ==> final(self)@ == accordion_toggled(
                AccordionModel { focused: index, ..old(self)@ },
                i as int,
            ) && r == EventStatus::Consumed,
            index is None ==> final(self)@ == old(self)@ && r == EventStatus::Ignored,
    {
        match index {
            Some(i) => {
                self.focused = Some(i);
                self.toggle(i);
                EventStatus::Consumed
            },
            None => EventStatus::Ignored,
        }
    }
}

/// Shorthand constructor.
pub fn accordion(items: Vec<AccordionItem>) -> (r: Accordion)
    ensures
        r@.items == items@,
        r@.open == Seq::<String>::empty(),
        !r@.multiple && r@.collapsible,
{
    Accordion::new(items)
}

proof fn lemma_without_value_len(open: Seq<String>, v: Seq<char>)
    ensures
        without_value(open, v).len() <= open.len(),
    decreases open.len(),
{
    if open.len() > 0 {
        lemma_without_value_len(open.drop_last(), v);
    }
}

proof fn lemma_without_absent_value(open: Seq<String>, v: Seq<char>)
    requires
        !opened_in(open, v),
    ensures
        without_value(open, v) == open,
    decreases open.len(),
{
    if open.len() > 0 {
        let p = open.drop_last();
        assert(!opened_in(p, v)) by {
            if opened_in(p, v) {
                let i = choose|i: int| 0 <= i < p.len() && #[trigger] p[i]@ == v;
                assert(open[i]@ == v);
            }
        }
        lemma_without_absent_value(p, v);
        assert(open[open.len() - 1]@ != v);
        assert(p.push(open.last()) =~= open);
    }
}

/// Law: a single-mode accordion with at most one open section keeps at
/// most one open section, whatever is toggled.
pub proof fn lemma_single_mode_one_open(m: AccordionModel, i: int)
    requires
        !m.multiple,
        m.open.len() <= 1,
    ensures
        accordion_toggled(m, i).open.len() <= 1,
{
    if 0 <= i < m.items.len() {
        lemma_without_value_len(m.open, m.items[i].value@);
    }
}

/// Law: in multiple mode, toggling a closed section twice gives back the
/// open sections exactly.
pub proof fn lemma_multiple_toggle_twice(m: AccordionModel, i: int)
    requires
        m.multiple,
        0 <= i < m.items.len(),
        !m.items[i].disabled,
        !opened_in(m.open, m.items[i].value@),
    ensures
        accordion_toggled(accordion_toggled(m, i), i).open == m.open,
{
    let v = m.items[i].value@;
    let m1 = accordion_toggled(m, i);
    assert(m1.open[m.open.len() as int]@ == v);
    assert(opened_in(m1.open, v));
    assert(m1.open.drop_last() =~= m.open);
    lemma_without_absent_value(m.open, v);
}

/// Law: in a non-collapsible single-mode accordion, toggling the open
/// section leaves it open.
pub proof fn lemma_non_collapsible_stays_open(m: AccordionModel, i: int)
    requires
        !m.multiple,
        !m.collapsible,
        0 <= i < m.items.len(),
        opened_in(m.open, m.items[i].value@),
    ensures
        accordion_toggled(m, i) == m,
{
}

} // verus!
