//! The catalog screen: which detail slots have resolved and which item the
//! user selected.  The records themselves live in the backend's state; this
//! screen only tracks what there is to show.

use vstd::prelude::*;
use crate::scene::goodreads::State;

verus! {

/// What the catalog screen can be told.
#[derive(Debug)]
pub enum Message {
    /// The catalog is scraped; this many slots exist, all unresolved.
    CatalogReady { count: usize },
    /// One detail slot resolved.
    BookFetched { index: usize, ok: bool },
    /// The user selected an item.
    BookSelected { index: usize },
}

/// The catalog screen's display state.
#[derive(Debug)]
pub struct Home {
    pub user_id: String,
    pub slot_count: usize,
    pub resolved: Vec<bool>,
    pub selected: Option<usize>,
}

/// What one catalog-screen step leaves behind.
pub open spec fn home_step_spec(pre: Home, message: Message, post: State) -> bool {
    match message {
        Message::CatalogReady { count } => match post {
            State::Home(h) => {
                &&& h.user_id == pre.user_id
                &&& h.slot_count == count
                &&& h.resolved@.len() == count
                &&& forall|i: int| 0 <= i < count ==> !(#[trigger] h.resolved@[i])
                &&& h.selected == pre.selected
            },
            _ => false,
        },
        Message::BookFetched { index, ok } => match post {
            State::Home(h) => {
                &&& h.user_id == pre.user_id
                &&& h.slot_count == pre.slot_count
                &&& h.selected == pre.selected
                &&& if index < pre.resolved@.len() {
                    h.resolved@ == pre.resolved@.update(index as int, true)
                } else {
                    h.resolved == pre.resolved
                }
            },
            _ => false,
        },
        Message::BookSelected { index } => match post {
            State::Home(h) => {
                &&& h.user_id == pre.user_id
                &&& h.slot_count == pre.slot_count
                &&& h.resolved == pre.resolved
                &&& if index < pre.slot_count {
                    h.selected == Some(index)
                } else {
                    h.selected == pre.selected
                }
            },
            _ => false,
        },
    }
}

impl Home {
    /// Apply one message: size the slots when the catalog arrives, mark a
    /// slot resolved, or record a selection.  An out-of-range index is a
    /// no-op, not an error.
    pub fn update(self, message: Message) -> (post: State)
        ensures
            home_step_spec(self, message, post),
    {
        match message {
            Message::CatalogReady { count } => {
                let mut resolved: Vec<bool> = Vec::new();
                while resolved.len() < count
                    invariant
                        resolved@.len() <= count,
                        forall|i: int| 0 <= i < resolved@.len() ==> !(#[trigger] resolved@[i]),
                    decreases count - resolved@.len(),
                {
                    resolved.push(false);
                }
                State::Home(
                    Home {
                        user_id: self.user_id,
                        slot_count: count,
                        resolved,
                        selected: self.selected,
                    },
                )
            },
            Message::BookFetched { index, ok: _ } => {
                let mut h = self;
                if index < h.resolved.len() {
                    h.resolved.set(index, true);
                }
                State::Home(h)
            },
            Message::BookSelected { index } => {
                let mut h = self;
                if index < h.slot_count {
                    h.selected = Some(index);
                }
                State::Home(h)
            },
        }
    }
}

} // verus!
