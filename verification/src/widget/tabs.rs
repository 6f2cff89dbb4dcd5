//! Tabs: a row of triggers, one of them active. Arrow keys move to the next
//! or previous tab, stopping at either end.
use crate::event::{EventStatus, Key};
use crate::style::CursorStyle;
use crate::text::same_text;
use vstd::prelude::*;

verus! {

pub ghost struct TabsModel {
    pub labels: Seq<String>,
    pub active: Seq<char>,
    pub hovered: Option<usize>,
    pub focused: Option<usize>,
}

/// The focus ring, when set, is on an existing tab.
pub open spec fn tabs_wf(m: TabsModel) -> bool {
    &&& m.labels.len() <= usize::MAX
    &&& m.focused matches Some(i) ==> i < m.labels.len()
}

/// Position of the first tab labelled `active`, or 0 when none is.
pub open spec fn active_position(m: TabsModel) -> int {
    if exists|i: int| 0 <= i < m.labels.len() && m.labels[i]@ == m.active {
        choose|i: int|
            0 <= i < m.labels.len() && m.labels[i]@ == m.active && forall|j: int|
                0 <= j < i ==> m.labels[j]@ != m.active
    } else {
        0
    }
}

/// Making tab `i` active (and focused).
pub open spec fn tab_selected(m: TabsModel, i: int) -> TabsModel {
    TabsModel { active: m.labels[i]@, focused: Some(i as usize), ..m }
}

pub open spec fn tabs_after_key(m: TabsModel, key: Key) -> TabsModel {
    if (key == Key::ArrowRight || key == Key::ArrowLeft) && m.labels.len() > 0 {
        let p = active_position(m);
        if key == Key::ArrowRight {
            tab_selected(m, if p + 1 < m.labels.len() { p + 1 } else { m.labels.len() - 1 })
        } else {
            tab_selected(m, if p >= 1 { p - 1 } else { 0 })
        }
    } else {
        m
    }
}

pub struct Tabs {
    labels: Vec<String>,
    active: String,
    hovered: Option<usize>,
    focused: Option<usize>,
}

impl View for Tabs {
    type V = TabsModel;

    closed spec fn view(&self) -> TabsModel {
        TabsModel { labels: self.labels@, active: self.active@, hovered: self.hovered, focused: self.focused }
    }
}

impl Tabs {
    /// Tabs over the given labels; the first one is active.
    pub fn new(labels: Vec<String>) -> (r: Self)
        ensures
            tabs_wf(r@),
            r@.labels == labels@,
            r@.active == (if labels@.len() > 0 { labels@[0]@ } else { Seq::empty() }),
            r@.hovered is None && r@.focused is None,
    {
        proof {
            assert(labels@.len() == labels.len());
        }
        let first = if labels.len() > 0 { labels[0].clone() } else { String::new() };
        Tabs { labels, active: first, hovered: None, focused: None }
    }

    pub fn active(self, key: String) -> (r: Self)
        requires
            tabs_wf(self@),
        ensures
            tabs_wf(r@),
            r@ == (TabsModel { active: key@, ..self@ }),
    {
        Tabs { active: key, ..self }
    }

    pub fn set_active(&mut self, key: String)
        requires
            tabs_wf(old(self)@),
        ensures
            tabs_wf(final(self)@),
            final(self)@ == (TabsModel { active: key@, ..old(self)@ }),
    {
        self.active = key;
    }

    pub fn labels(&self) -> (r: &Vec<String>)
        ensures
            r@ == self@.labels,
    {
        &self.labels
    }

    pub fn active_label(&self) -> (r: &String)
        ensures
            r@ == self@.active,
    {
        &self.active
    }

    pub fn hovered_index(&self) -> (r: Option<usize>)
        ensures
            r == self@.hovered,
    {
        self.hovered
    }

    pub fn focused_index(&self) -> (r: Option<usize>)
        ensures
            r == self@.focused,
    {
        self.focused
    }

    /// Tabs take focus when there is at least one.
    pub fn focusable(&self) -> (r: bool)
        ensures
            r == (self@.labels.len() > 0),
    {
        self.labels.len() > 0
    }

    /// Whether tab `i` is the active one.
    pub fn is_active(&self, i: usize) -> (r: bool)
        ensures
            r == (i < self@.labels.len() && self@.labels[i as int]@ == self@.active),
    {
        i < self.labels.len() && same_text(self.labels[i].as_str(), self.active.as_str())
    }

    fn active_index(&self) -> (r: usize)
        requires
            tabs_wf(self@),
        ensures
            r == active_position(self@),
            self@.labels.len() > 0 ==> r < self@.labels.len(),
    {
        let ghost m = self@;
        let mut i: usize = 0;
        while i < self.labels.len()
            invariant
                i <= self@.labels.len(),
                m == self@,
                forall|j: int| 0 <= j < i ==> self@.labels[j]@ != self@.active,
            decreases self@.labels.len() - i,
        {
            if same_text(self.labels[i].as_str(), self.active.as_str()) {
                proof {
                    let w = choose|k: int|
                        0 <= k < m.labels.len() && m.labels[k]@ == m.active && forall|j: int|
                            0 <= j < k ==> m.labels[j]@ != m.active;
                    assert(0 <= i < m.labels.len() && m.labels[i as int]@ == m.active && forall|j: int|
                        0 <= j < i ==> m.labels[j]@ != m.active);
                    if w < i {
                    }
                    if w > i {
                    }
                    assert(w == i);
                }
                return i;
            }
            i += 1;
        }
        0
    }

    /// Make tab `i` active and focused; returns its label when it was not
    /// already active.
    fn select(&mut self, i: usize) -> (r: Option<String>)
        requires
            tabs_wf(old(self)@),
            i < old(self)@.labels.len(),
        ensures
            tabs_wf(final(self)@),
            final(self)@ == tab_selected(old(self)@, i as int),
            old(self)@.labels[i as int]@ == old(self)@.active ==> r is None,
            old(self)@.labels[i as int]@ != old(self)@.active ==> (r matches Some(l) && l@ == old(self)@.labels[i as int]@),
    {
        let label = self.labels[i].clone();
        self.focused = Some(i);
        if same_text(self.active.as_str(), label.as_str()) {
            return None;
        }
        self.active = label.clone();
        Some(label)
    }

    pub fn focus_lost(&mut self) -> (r: EventStatus)
        requires
            tabs_wf(old(self)@),
        ensures
            tabs_wf(final(self)@),
            final(self)@ == (TabsModel { focused: None, ..old(self)@ }),
            r == EventStatus::Ignored,
    {
        self.focused = None;
        EventStatus::Ignored
    }

    /// ArrowRight / ArrowLeft move to the next / previous tab. Returns
    /// whether consumed and the newly active label when it changed; other
    /// keys belong to the active panel (`Ignored`).
    pub fn handle_key(&mut self, key: Key) -> (r: (EventStatus, Option<String>))
        requires
            tabs_wf(old(self)@),
        ensures
            tabs_wf(final(self)@),
            final(self)@ == tabs_after_key(old(self)@, key),
            (key == Key::ArrowRight || key == Key::ArrowLeft) && old(self)@.labels.len() > 0 ==> r.0
                == EventStatus::Consumed,
            !((key == Key::ArrowRight || key == Key::ArrowLeft) && old(self)@.labels.len() > 0) ==> r
                == (EventStatus::Ignored, None::<String>),
            r.1 matches Some(l) ==> l@ == final(self)@.active && l@ != old(self)@.active,
            r.1 is None ==> final(self)@.active == old(self)@.active,
    {
        let n = self.labels.len();
        if n == 0 {
            return (EventStatus::Ignored, None);
        }
        match key {
            Key::ArrowRight => {
                let p = self.active_index();
                let next = if p + 1 < n { p + 1 } else { n - 1 };
                let changed = self.select(next);
                (EventStatus::Consumed, changed)
            },
            Key::ArrowLeft => {
                let p = self.active_index();
                let next = if p >= 1 { p - 1 } else { 0 };
                let changed = self.select(next);
                (EventStatus::Consumed, changed)
            },
            _ => (EventStatus::Ignored, None),
        }
    }

    pub fn mouse_move(&mut self, index: Option<usize>)
        requires
            tabs_wf(old(self)@),
        ensures
            tabs_wf(final(self)@),
            final(self)@ == (TabsModel { hovered: index, ..old(self)@ }),
    {
        self.hovered = index;
    }

    /// Primary press on tab `index` makes it active and focused; a press on
    /// no tab belongs to the active panel (`Ignored`).
    pub fn mouse_down(&mut self, index: Option<usize>) -> (r: (EventStatus, Option<String>))
        requires
            tabs_wf(old(self)@),
            index matches Some(i) ==> i < old(self)@.labels.len(),
        ensures
            tabs_wf(final(self)@),
            index matches Some(i) ==> final(self)@ == tab_selected(old(self)@, i as int) && r.0
                == EventStatus::Consumed,
            index is None ==> final(self)@ == old(self)@ && r == (EventStatus::Ignored, None::<String>),
            r.1 matches Some(l) ==> l@ == final(self)@.active && l@ != old(self)@.active,
            r.1 is None ==> final(self)@.active == old(self)@.active,
    {
        match index {
            Some(i) => {
                let changed = self.select(i);
                (EventStatus::Consumed, changed)
            },
            None => (EventStatus::Ignored, None),
        }
    }

    pub fn cursor_style(&self, over_tab: bool) -> (r: CursorStyle)
        ensures
            r == (if over_tab { CursorStyle::Pointer } else { CursorStyle::Default }),
    {
        if over_tab {
            CursorStyle::Pointer
        } else {
            CursorStyle::Default
        }
    }
}

/// Law: with distinct labels, ArrowRight then ArrowLeft makes the same tab
/// active again, unless it was the last tab.
pub proof fn lemma_right_left_round_trip(m: TabsModel, a: int)
    requires
        tabs_wf(m),
        0 <= a < m.labels.len() - 1,
        m.active == m.labels[a]@,
        forall|i: int, j: int| 0 <= i < j < m.labels.len() ==> m.labels[i]@ != m.labels[j]@,
    ensures
        tabs_after_key(tabs_after_key(m, Key::ArrowRight), Key::ArrowLeft).active == m.active,
{
    assert(active_position(m) == a) by {
        assert(0 <= a < m.labels.len() && m.labels[a]@ == m.active && forall|j: int|
            0 <= j < a ==> m.labels[j]@ != m.active);
        let w = active_position(m);
        if w != a {
            assert(m.labels[w]@ == m.active);
        }
    }
    let m1 = tabs_after_key(m, Key::ArrowRight);
    assert(m1.active == m.labels[a + 1]@);
    assert(active_position(m1) == a + 1) by {
        assert(0 <= a + 1 < m1.labels.len() && m1.labels[a + 1]@ == m1.active && forall|j: int|
            0 <= j < a + 1 ==> m1.labels[j]@ != m1.active);
        let w = active_position(m1);
        if w != a + 1 {
            assert(m1.labels[w]@ == m1.active);
        }
    }
}

} // verus!
