//! TabView: a container of keyed pages that shows, and hands events to,
//! only the page whose key is active.
use crate::focus::{first_position, position_of_id};
use vstd::prelude::*;

verus! {

pub ghost struct TabViewModel {
    pub keys: Seq<String>,
    pub active: Seq<char>,
}

pub struct TabView {
    keys: Vec<String>,
    active: String,
}

impl View for TabView {
    type V = TabViewModel;

    closed spec fn view(&self) -> TabViewModel {
        TabViewModel { keys: self.keys@, active: self.active@ }
    }
}

impl TabView {
    /// Pages under `keys`, in order; the first one is active (no key is
    /// active when there are none).
    pub fn new(keys: Vec<String>) -> (r: Self)
        ensures
            r@.keys == keys@,
            r@.active == (if keys@.len() > 0 {
                keys@[0]@
            } else {
                Seq::<char>::empty()
            }),
    {
        let active = if keys.len() > 0 {
            keys[0].clone()
        } else {
            String::new()
        };
        TabView { keys, active }
    }

    pub fn active(self, key: String) -> (r: Self)
        ensures
            r@ == (TabViewModel { active: key@, ..self@ }),
    {
        TabView { active: key, ..self }
    }

    pub fn set_active(&mut self, key: String)
        ensures
            final(self)@ == (TabViewModel { active: key@, ..old(self)@ }),
    {
        self.active = key;
    }

    pub fn active_key(&self) -> (r: &String)
        ensures
            r@ == self@.active,
    {
        &self.active
    }

    /// The page shown and given events: the first one whose key is the
    /// active key; `None` when no page has it (events are then ignored).
    pub fn active_page(&self) -> (r: Option<usize>)
        ensures
            r matches Some(i) ==> i < self@.keys.len(),
            match r {
                Some(i) => first_position(self@.keys, self@.active) == Some(i as int),
                None => first_position(self@.keys, self@.active) is None,
            },
    {
        position_of_id(&self.keys, self.active.as_str())
    }
}

} // verus!
