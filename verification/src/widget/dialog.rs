//! Dialog: a centered modal panel over a backdrop. While open it keeps
//! pointer and keyboard input from reaching what lies beneath, and it can be
//! dismissed with Escape or a click on the backdrop.
use crate::event::{EventKind, Key, MouseButton, Route};
use vstd::prelude::*;

verus! {

pub ghost struct DialogModel {
    pub open: bool,
    pub title: Option<Seq<char>>,
    pub close_on_backdrop: bool,
    pub close_on_escape: bool,
}

/// Where an open dialog sends an event, and whether the event closes it.
/// `in_panel`: the event's pointer position lies on the dialog panel.
pub open spec fn dialog_routing(m: DialogModel, ev: EventKind, in_panel: bool) -> (Route, bool) {
    if !m.open {
        (Route::Ignored, false)
    } else {
        match ev {
            EventKind::KeyDown(Key::Escape) => if m.close_on_escape {
                (Route::Consumed, true)
            } else {
                (Route::ToContent, false)
            },
            EventKind::MouseDown(MouseButton::Left) => if in_panel {
                (Route::ToContent, false)
            } else {
                (Route::Consumed, m.close_on_backdrop)
            },
            EventKind::MouseUp(MouseButton::Left) | EventKind::MouseClick(_)
            | EventKind::MouseDoubleClick(_) | EventKind::Scroll => if in_panel {
                (Route::ToContent, false)
            } else {
                (Route::Consumed, false)
            },
            EventKind::MouseMove => if in_panel {
                (Route::ToContent, false)
            } else {
                (Route::Ignored, false)
            },
            EventKind::KeyDown(_) | EventKind::KeyUp(_) | EventKind::TextInput
            | EventKind::ImePreedit | EventKind::FocusGained | EventKind::FocusLost => (
                Route::ToContent,
                false,
            ),
            _ => (Route::Consumed, false),
        }
    }
}

pub struct Dialog {
    open: bool,
    title: Option<String>,
    close_on_backdrop: bool,
    close_on_escape: bool,
}

impl View for Dialog {
    type V = DialogModel;

    closed spec fn view(&self) -> DialogModel {
        DialogModel {
            open: self.open,
            title: match self.title {
                Some(t) => Some(t@),
                None => None,
            },
            close_on_backdrop: self.close_on_backdrop,
            close_on_escape: self.close_on_escape,
        }
    }
}

impl Dialog {
    /// A closed, untitled dialog that Escape and backdrop clicks dismiss.
    pub fn new() -> (r: Self)
        ensures
            r@ == (DialogModel {
                open: false,
                title: None,
                close_on_backdrop: true,
                close_on_escape: true,
            }),
    {
        Dialog { open: false, title: None, close_on_backdrop: true, close_on_escape: true }
    }

    pub fn title(self, t: String) -> (r: Self)
        ensures
            r@ == (DialogModel { title: Some(t@), ..self@ }),
    {
        Dialog { title: Some(t), ..self }
    }

    pub fn close_on_backdrop(self, v: bool) -> (r: Self)
        ensures
            r@ == (DialogModel { close_on_backdrop: v, ..self@ }),
    {
        Dialog { close_on_backdrop: v, ..self }
    }

    pub fn close_on_escape(self, v: bool) -> (r: Self)
        ensures
            r@ == (DialogModel { close_on_escape: v, ..self@ }),
    {
        Dialog { close_on_escape: v, ..self }
    }

    pub fn title_text(&self) -> (r: Option<&String>)
        ensures
            r is Some == self@.title is Some,
            r is Some ==> self@.title == Some(r->0@),
    {
        match &self.title {
            Some(t) => Some(t),
            None => None,
        }
    }

    pub fn is_open(&self) -> (r: bool)
        ensures
            r == self@.open,
    {
        self.open
    }

    /// Opens or closes the dialog (what a trigger button does).
    pub fn set_open(&mut self, v: bool)
        ensures
            final(self)@ == (DialogModel { open: v, ..old(self)@ }),
    {
        self.open = v;
    }

    /// While open, Tab navigation and pointer focus stay inside the dialog.
    pub fn blocks_focus_outside(&self) -> (r: bool)
        ensures
            r == self@.open,
    {
        self.open
    }

    /// Routes one event. Returns where it goes and whether it closed the
    /// dialog (the caller then runs its close callback).
    pub fn handle_event(&mut self, ev: EventKind, in_panel: bool) -> (r: (Route, bool))
        ensures
            r == dialog_routing(old(self)@, ev, in_panel),
            final(self)@ == (DialogModel { open: old(self)@.open && !r.1, ..old(self)@ }),
    {
        if !self.open {
            return (Route::Ignored, false);
        }
        let r = match ev {
            EventKind::KeyDown(Key::Escape) => if self.close_on_escape {
                (Route::Consumed, true)
            } else {
                (Route::ToContent, false)
            },
            EventKind::MouseDown(MouseButton::Left) => if in_panel {
                (Route::ToContent, false)
            } else {
                (Route::Consumed, self.close_on_backdrop)
            },
            EventKind::MouseUp(MouseButton::Left) | EventKind::MouseClick(_)
            | EventKind::MouseDoubleClick(_) | EventKind::Scroll => if in_panel {
                (Route::ToContent, false)
            } else {
                (Route::Consumed, false)
            },
            EventKind::MouseMove => if in_panel {
                (Route::ToContent, false)
            } else {
                (Route::Ignored, false)
            },
            EventKind::KeyDown(_) | EventKind::KeyUp(_) | EventKind::TextInput
            | EventKind::ImePreedit | EventKind::FocusGained | EventKind::FocusLost => (
                Route::ToContent,
                false,
            ),
            _ => (Route::Consumed, false),
        };
        if r.1 {
            self.open = false;
        }
        r
    }
}

/// An open dialog is modal: no event but a pointer move off the panel falls
/// through to what lies beneath, and nothing off the panel reaches its
/// content.
pub proof fn lemma_open_dialog_is_modal(m: DialogModel, ev: EventKind, in_panel: bool)
    requires
        m.open,
    ensures
        dialog_routing(m, ev, in_panel).0 == Route::Ignored ==> ev == EventKind::MouseMove && !in_panel,
        dialog_routing(m, ev, in_panel).0 != Route::ToTrigger,
        !in_panel && dialog_routing(m, ev, in_panel).0 == Route::ToContent ==> match ev {
            EventKind::KeyDown(_) | EventKind::KeyUp(_) | EventKind::TextInput
            | EventKind::ImePreedit | EventKind::FocusGained | EventKind::FocusLost => true,
            _ => false,
        },
{
}

/// A closed dialog lets every event through and stays closed.
pub proof fn lemma_closed_dialog_is_inert(m: DialogModel, ev: EventKind, in_panel: bool)
    requires
        !m.open,
    ensures
        dialog_routing(m, ev, in_panel) == (Route::Ignored, false),
{
}

} // verus!
