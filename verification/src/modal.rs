//! The confirmation modal: a title, a description, and an open flag the
//! close control toggles. Confirmation itself is reported upward by the
//! surrounding program through its own callback.

use vstd::prelude::*;

verus! {

/// One mounted modal.
pub struct Modal {
    pub title: String,
    pub description: String,
    pub is_open: bool,
}

/// The one message the modal reacts to.
pub enum Msg {
    Close,
}

impl Modal {
    /// A modal starts out open.
    pub fn create(title: String, description: String) -> (m: Modal)
        ensures
            m.title@ == title@,
            m.description@ == description@,
            m.is_open == true,
    {
        Modal { title, description, is_open: true }
    }

    /// Apply one message: the close control flips the open flag.
    pub fn update(&mut self, msg: Msg) -> (render: bool)
        ensures
            final(self).title == old(self).title,
            final(self).description == old(self).description,
            final(self).is_open == !old(self).is_open,
            render == true,
    {
        match msg {
            Msg::Close => {
                self.is_open = !self.is_open;
                true
            },
        }
    }
}

} // verus!
