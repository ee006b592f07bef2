use vstd::prelude::*;

use crate::item::{ItemView, ListItem};
use crate::state::{ListError, State, views};

verus! {

/// The windowed view as seen from outside: the items it can materialize and
/// the scroll position, which is unset until one is given.
pub struct WindowView<O> {
    pub items: Seq<ItemView>,
    pub scroll_offset: Option<O>,
}

/// A freshly built window over `items`, with no scroll position.
pub open spec fn rebuilt<O>(items: Seq<ItemView>) -> WindowView<O> {
    WindowView { items, scroll_offset: None }
}

/// Whether `count` rows from `first` lie within a window of `len` rows.
pub open spec fn range_fits(len: nat, first: nat, count: nat) -> bool {
    first + count <= len
}

/// Whether `unit` is what `render` gives for an item that shows `item`.
pub open spec fn rendered_from<R, F: Fn(&ListItem) -> R>(render: F, item: ItemView, unit: R) -> bool {
    exists|it: &ListItem| #[trigger] render.ensures((it,), unit) && it@ == item
}

/// Whether `out` holds, in order, what `render` gives for each of `items`.
pub open spec fn rendered_rows<R, F: Fn(&ListItem) -> R>(render: F, items: Seq<ItemView>, out: Seq<R>) -> bool {
    &&& out.len() == items.len()
    &&& forall|i: int| 0 <= i < items.len() ==> #[trigger] rendered_from(render, items[i], out[i])
}

/// The virtualization state of the list: an immutable snapshot of the items
/// at build time, from which any row can be materialized on demand, and an
/// opaque scroll position that is passed through and never interpreted.
pub struct WindowState<O> {
    items: Vec<ListItem>,
    scroll_offset: Option<O>,
}

impl<O> View for WindowState<O> {
    type V = WindowView<O>;

    closed spec fn view(&self) -> WindowView<O> {
        WindowView { items: views(self.items@), scroll_offset: self.scroll_offset }
    }
}

impl<O> WindowState<O> {
    /// A new window over what `state` holds now, with the scroll position unset.
    pub fn rebuild(state: &State) -> (r: WindowState<O>)
        ensures
            r@ == rebuilt::<O>(state@.items),
    {
        WindowState { items: state.snapshot(), scroll_offset: None }
    }

    /// How many rows the window has.
    pub fn len(&self) -> (r: usize)
        ensures
            r == self@.items.len(),
    {
        self.items.len()
    }

    /// Sets the scroll position, unchanged.
    pub fn scroll_to(&mut self, offset: O)
        ensures
            final(self)@ == (WindowView { scroll_offset: Some(offset), ..old(self)@ }),
    {
        self.scroll_offset = Some(offset);
    }

    /// Moves the scroll position out, leaving it unset.
    pub fn take_scroll_offset(&mut self) -> (r: Option<O>)
        ensures
            r == old(self)@.scroll_offset,
            final(self)@ == (WindowView { scroll_offset: None, ..old(self)@ }),
    {
        self.scroll_offset.take()
    }

    pub fn scroll_offset(&self) -> (r: &Option<O>)
        ensures
            *r == self@.scroll_offset,
    {
        &self.scroll_offset
    }

    /// The item shown in row `index`.
    pub fn materialize(&self, index: usize) -> (r: Result<&ListItem, ListError>)
        ensures
            index < self@.items.len() ==> (r matches Ok(it) && it@ == self@.items[index as int]),
            index >= self@.items.len() ==> r == Err::<&ListItem, ListError>(ListError::IndexOutOfRange),
    {
        if index < self.items.len() {
            Ok(&self.items[index])
        } else {
            Err(ListError::IndexOutOfRange)
        }
    }

    /// Renders `count` rows from `first` with `render`, in order; fails when
    /// the range runs past the window's length.
    pub fn render_range<R, F: Fn(&ListItem) -> R>(&self, first: usize, count: usize, render: F) -> (r: Result<Vec<R>, ListError>)
        requires
            forall|it: &ListItem| #[trigger] render.requires((it,)),
        ensures
            range_fits(self@.items.len(), first as nat, count as nat) ==> (r matches Ok(out)
                && rendered_rows(render, self@.items.subrange(first as int, first + count), out@)),
            !range_fits(self@.items.len(), first as nat, count as nat) ==> r == Err::<Vec<R>, ListError>(ListError::IndexOutOfRange),
    {
        if first > self.items.len() || count > self.items.len() - first {
            return Err(ListError::IndexOutOfRange);
        }
        let mut out: Vec<R> = Vec::new();
        let mut i: usize = 0;
        while i < count
            invariant
                i <= count,
                first + count <= self.items.len(),
                forall|it: &ListItem| #[trigger] render.requires((it,)),
                out@.len() == i,
                forall|k: int| 0 <= k < i ==> #[trigger] rendered_from(render, self@.items[first + k], out@[k]),
            decreases count - i,
        {
            let it = &self.items[first + i];
            let unit = render(it);
            assert(rendered_from(render, self@.items[first + i], unit));
            out.push(unit);
            i += 1;
        }
        assert(rendered_rows(render, self@.items.subrange(first as int, first + count), out@)) by {
            assert forall|k: int| 0 <= k < count implies #[trigger] rendered_from(
                render,
                self@.items.subrange(first as int, first + count)[k],
                out@[k],
            ) by {
                assert(self@.items.subrange(first as int, first + count)[k] == self@.items[first + k]);
            }
        }
        Ok(out)
    }
}

} // verus!
