//! Sidebar navigation: groups of items, one of them active (matched by label).
use crate::event::EventStatus;
use crate::style::CursorStyle;
use crate::text::same_text;
use vstd::prelude::*;

verus! {

/// A single clickable menu entry.
pub struct SidebarItem {
    label: String,
    /// Set by the owner when this item matches the active key.
    pub active: bool,
}

impl SidebarItem {
    pub closed spec fn spec_label(&self) -> Seq<char> {
        self.label@
    }

    pub closed spec fn spec_active(&self) -> bool {
        self.active
    }

    pub fn new(label: String) -> (r: Self)
        ensures
            r.spec_label() == label@,
            !r.spec_active(),
    {
        SidebarItem { label, active: false }
    }

    pub fn label(&self) -> (r: &str)
        ensures
            r@ == self.spec_label(),
    {
        self.label.as_str()
    }
}

/// A labelled (or unlabelled) section of items.
pub struct SidebarGroup {
    pub label: Option<String>,
    pub items: Vec<SidebarItem>,
}

impl SidebarGroup {
    pub fn new(label: String, items: Vec<SidebarItem>) -> (r: Self)
        ensures
            r.label == Some(label),
            r.items@ == items@,
    {
        SidebarGroup { label: Some(label), items }
    }

    pub fn unlabelled(items: Vec<SidebarItem>) -> (r: Self)
        ensures
            r.label is None,
            r.items@ == items@,
    {
        SidebarGroup { label: None, items }
    }
}

pub fn sidebar_group(label: String, items: Vec<SidebarItem>) -> (r: SidebarGroup)
    ensures
        r.label == Some(label),
        r.items@ == items@,
{
    SidebarGroup::new(label, items)
}

pub fn sidebar_item(label: String) -> (r: SidebarItem)
    ensures
        r.spec_label() == label@,
        !r.spec_active(),
{
    SidebarItem::new(label)
}

/// `(group, item)` names an item of `groups`.
pub open spec fn names_item(groups: Seq<SidebarGroup>, g: int, i: int) -> bool {
    0 <= g < groups.len() && 0 <= i < groups[g].items@.len()
}

pub open spec fn item_label_at(groups: Seq<SidebarGroup>, g: int, i: int) -> Seq<char> {
    groups[g].items@[i].spec_label()
}

/// Every `(group, item)` pair, groups in order and items in order within.
pub open spec fn item_slots(groups: Seq<SidebarGroup>) -> Seq<(usize, usize)>
    decreases groups.len(),
{
    if groups.len() == 0 {
        Seq::empty()
    } else {
        let g = groups.len() - 1;
        item_slots(groups.drop_last()) + Seq::new(
            groups.last().items@.len(),
            |k: int| (g as usize, k as usize),
        )
    }
}

pub ghost struct SidebarModel {
    pub groups: Seq<SidebarGroup>,
    pub active: Seq<char>,
    pub hovered: Option<(usize, usize)>,
}

pub struct Sidebar {
    groups: Vec<SidebarGroup>,
    active: String,
    hovered: Option<(usize, usize)>,
}

impl View for Sidebar {
    type V = SidebarModel;

    closed spec fn view(&self) -> SidebarModel {
        SidebarModel { groups: self.groups@, active: self.active@, hovered: self.hovered }
    }
}

impl Sidebar {
    /// A sidebar with no active item.
    pub fn new(groups: Vec<SidebarGroup>) -> (r: Self)
        ensures
            r@ == (SidebarModel { groups: groups@, active: Seq::empty(), hovered: None }),
    {
        Sidebar { groups, active: String::new(), hovered: None }
    }

    pub fn active(self, key: String) -> (r: Self)
        ensures
            r@ == (SidebarModel { active: key@, ..self@ }),
    {
        Sidebar { active: key, ..self }
    }

    pub fn groups(&self) -> (r: &Vec<SidebarGroup>)
        ensures
            r@ == self@.groups,
    {
        &self.groups
    }

    pub fn active_label(&self) -> (r: &String)
        ensures
            r@ == self@.active,
    {
        &self.active
    }

    pub fn hovered_item(&self) -> (r: Option<(usize, usize)>)
        ensures
            r == self@.hovered,
    {
        self.hovered
    }

    /// Whether item `(g, i)` is the active one (its label is the active key).
    pub fn is_active(&self, g: usize, i: usize) -> (r: bool)
        ensures
            r == (names_item(self@.groups, g as int, i as int) && item_label_at(self@.groups, g as int, i as int)
                == self@.active),
    {
        if g < self.groups.len() && i < self.groups[g].items.len() {
            same_text(self.groups[g].items[i].label(), self.active.as_str())
        } else {
            false
        }
    }

    /// Every item's `(group, item)` position, in layout order.
    pub fn item_positions(&self) -> (r: Vec<(usize, usize)>)
        ensures
            r@ == item_slots(self@.groups),
    {
        let mut out: Vec<(usize, usize)> = Vec::new();
        let mut g: usize = 0;
        while g < self.groups.len()
            invariant
                g <= self@.groups.len(),
                out@ == item_slots(self@.groups.take(g as int)),
            decreases self@.groups.len() - g,
        {
            let n = self.groups[g].items.len();
            let ghost base = out@;
            let mut i: usize = 0;
            while i < n
                invariant
                    g < self@.groups.len(),
                    n == self@.groups[g as int].items@.len(),
                    i <= n,
                    out@ == base + Seq::new(i as nat, |k: int| (g, k as usize)),
                decreases n - i,
            {
                out.push((g, i));
                i += 1;
                proof {
                    assert(out@ =~= base + Seq::new(i as nat, |k: int| (g, k as usize)));
                }
            }
            proof {
                let t = self@.groups.take(g + 1);
                assert(t.drop_last() =~= self@.groups.take(g as int));
                assert(t.last() == self@.groups[g as int]);
                assert(out@ =~= item_slots(t));
            }
            g += 1;
        }
        proof {
            assert(self@.groups.take(g as int) =~= self@.groups);
        }
        out
    }

    /// The pointer moved over item `hit` (or over none).
    pub fn mouse_move(&mut self, hit: Option<(usize, usize)>) -> (r: EventStatus)
        ensures
            final(self)@ == (SidebarModel { hovered: hit, ..old(self)@ }),
            r == EventStatus::Ignored,
    {
        self.hovered = hit;
        EventStatus::Ignored
    }

    /// Primary press on item `hit`: it becomes active and its label is
    /// reported; a press on no item is ignored.
    pub fn mouse_down(&mut self, hit: Option<(usize, usize)>) -> (r: (EventStatus, Option<String>))
        requires
            hit matches Some((g, i)) ==> names_item(old(self)@.groups, g as int, i as int),
        ensures
            hit matches Some((g, i)) ==> final(self)@ == (SidebarModel {
                active: item_label_at(old(self)@.groups, g as int, i as int),
                ..old(self)@
            }) && r.0 == EventStatus::Consumed && (r.1 matches Some(l) && l@ == item_label_at(
                old(self)@.groups,
                g as int,
                i as int,
            )),
            hit is None ==> final(self)@ == old(self)@ && r == (EventStatus::Ignored, None::<String>),
    {
        match hit {
            Some((g, i)) => {
                let label = self.groups[g].items[i].label.clone();
                self.active = label.clone();
                (EventStatus::Consumed, Some(label))
            },
            None => (EventStatus::Ignored, None),
        }
    }

    pub fn cursor_style(&self, over_item: bool) -> (r: CursorStyle)
        ensures
            r == (if over_item { CursorStyle::Pointer } else { CursorStyle::Default }),
    {
        if over_item {
            CursorStyle::Pointer
        } else {
            CursorStyle::Default
        }
    }
}

/// Shorthand constructor.
pub fn sidebar(groups: Vec<SidebarGroup>) -> (r: Sidebar)
    ensures
        r@ == (SidebarModel { groups: groups@, active: Seq::empty(), hovered: None }),
{
    Sidebar::new(groups)
}

} // verus!
