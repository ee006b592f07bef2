use vstd::prelude::*;

use crate::item::ItemView;
use crate::state::State;
use crate::window::{WindowState, WindowView, rebuilt};

verus! {

/// The window that replaces `previous` once the list holds `items`: built
/// anew over them, with the previous scroll position carried forward.
pub open spec fn carried_forward<O>(previous: WindowView<O>, items: Seq<ItemView>) -> WindowView<O> {
    WindowView { items, scroll_offset: previous.scroll_offset }
}

/// Keeps the window in step with the list: on every change it replaces the
/// window by a new one over the list's current items, keeping the scroll
/// position.
pub struct Main<O> {
    window: WindowState<O>,
}

impl<O> View for Main<O> {
    type V = WindowView<O>;

    closed spec fn view(&self) -> WindowView<O> {
        self.window@
    }
}

impl<O> Main<O> {
    /// A controller whose window shows what `state` holds now, scroll position unset.
    pub fn new(state: &State) -> (r: Main<O>)
        ensures
            r@ == rebuilt::<O>(state@.items),
    {
        Main { window: WindowState::rebuild(state) }
    }

    pub fn window(&self) -> (r: &WindowState<O>)
        ensures
            r@ == self@,
    {
        &self.window
    }

    /// Records the scroll position that the user has reached.
    pub fn scroll_to(&mut self, offset: O)
        ensures
            final(self)@ == (WindowView { scroll_offset: Some(offset), ..old(self)@ }),
    {
        self.window.scroll_to(offset);
    }

    /// Handles a change notice: rebuilds the window over `state`, carries
    /// the scroll position forward, and returns whether the host must redraw,
    /// which it must after every rebuild.
    pub fn on_collection_changed(&mut self, state: &State) -> (redraw: bool)
        ensures
            final(self)@ == carried_forward(old(self)@, state@.items),
            redraw,
    {
        let previous = self.window.take_scroll_offset();
        let mut next: WindowState<O> = WindowState::rebuild(state);
        match previous {
            Some(offset) => next.scroll_to(offset),
            None => {},
        }
        self.window = next;
        true
    }
}

} // verus!
