use vstd::prelude::*;

use crate::item::{ItemView, ListItem, numbered_title, placeholder_subtitle};

verus! {

/// Why an operation on the list or its window could not be done.
#[derive(PartialEq, Eq, Structural, Debug, Clone, Copy)]
pub enum ListError {
    /// An index at or past the current length.
    IndexOutOfRange,
    /// The list was torn down; it takes no more items.
    MutationUnreachable,
}

/// A registration for change notices, handed out by [`State::subscribe`].
#[derive(PartialEq, Eq, Structural, Debug, Clone, Copy)]
pub struct Subscription {
    pub id: usize,
}

/// One notice of a committed append, for one subscriber.
#[derive(PartialEq, Eq, Structural, Debug, Clone, Copy)]
pub struct Notification {
    pub subscriber: usize,
    /// The length of the list once the append was committed.
    pub length: usize,
}

/// The views of a sequence of items, in order.
pub open spec fn views(items: Seq<ListItem>) -> Seq<ItemView> {
    items.map_values(|it: ListItem| it@)
}

/// The list as seen from outside: its items, oldest first, how many
/// subscribers it has, and whether it still takes items.
pub struct StateView {
    pub items: Seq<ItemView>,
    pub subscribers: nat,
    pub open: bool,
}

/// The list after `item` has been added at its end.
pub open spec fn appended(s: StateView, item: ItemView) -> StateView {
    StateView { items: s.items.push(item), ..s }
}

/// The notices one append sends: one per subscriber, in order of
/// subscription, each with the length after the append.
pub open spec fn notices(s: StateView) -> Seq<Notification> {
    Seq::new(s.subscribers, |i: int| Notification { subscriber: i as usize, length: s.items.len() as usize })
}

/// The item that the shared append path produces for a list of `len` items.
pub open spec fn numbered_item(len: nat) -> ItemView {
    ItemView { title: numbered_title(len), subtitle: placeholder_subtitle() }
}

/// The observable, append-only list shared by the user's action and the
/// background producer.
pub struct State {
    items: Vec<ListItem>,
    subscribers: usize,
    open: bool,
}

impl View for State {
    type V = StateView;

    closed spec fn view(&self) -> StateView {
        StateView { items: views(self.items@), subscribers: self.subscribers as nat, open: self.open }
    }
}

impl State {
    /// An empty list that takes items.
    pub fn new() -> (r: State)
        ensures
            r@ == (StateView { items: Seq::empty(), subscribers: 0, open: true }),
    {
        let r = State { items: Vec::new(), subscribers: 0, open: true };
        assert(views(r.items@) =~= Seq::empty());
        r
    }

    pub fn len(&self) -> (r: usize)
        ensures
            r == self@.items.len(),
    {
        self.items.len()
    }

    pub fn is_open(&self) -> (r: bool)
        ensures
            r == self@.open,
    {
        self.open
    }

    /// The item at `index`, counted from the oldest.
    pub fn get(&self, index: usize) -> (r: Result<ListItem, ListError>)
        ensures
            index < self@.items.len() ==> (r matches Ok(it) && it@ == self@.items[index as int]),
            index >= self@.items.len() ==> r == Err::<ListItem, ListError>(ListError::IndexOutOfRange),
    {
        if index < self.items.len() {
            Ok(self.items[index].clone())
        } else {
            Err(ListError::IndexOutOfRange)
        }
    }

    /// A copy of the items, oldest first.
    pub fn snapshot(&self) -> (r: Vec<ListItem>)
        ensures
            views(r@) == self@.items,
    {
        let mut out: Vec<ListItem> = Vec::new();
        let mut i: usize = 0;
        while i < self.items.len()
            invariant
                i <= self.items.len(),
                views(out@) =~= views(self.items@).subrange(0, i as int),
            decreases self.items.len() - i,
        {
            let it = self.items[i].clone();
            let ghost prev = out@;
            out.push(it);
            assert(views(out@) =~= views(prev).push(it@));
            assert(views(out@) =~= views(self.items@).subrange(0, i + 1));
            i += 1;
        }
        assert(views(self.items@).subrange(0, i as int) =~= views(self.items@));
        out
    }

    /// Registers for a notice on every later append.
    pub fn subscribe(&mut self) -> (r: Option<Subscription>)
        ensures
            old(self)@.subscribers < usize::MAX ==> r == Some(Subscription { id: old(self)@.subscribers as usize })
                && final(self)@ == (StateView { subscribers: old(self)@.subscribers + 1, ..old(self)@ }),
            old(self)@.subscribers == usize::MAX ==> r is None && final(self)@ == old(self)@,
    {
        if self.subscribers < usize::MAX {
            let id = self.subscribers;
            self.subscribers = id + 1;
            Some(Subscription { id })
        } else {
            None
        }
    }

    /// Adds `item` at the end and returns the notices that the change sends.
    /// Once the list is torn down nothing changes and the call fails.
    pub fn append(&mut self, item: ListItem) -> (r: Result<Vec<Notification>, ListError>)
        ensures
            old(self)@.open ==> (r matches Ok(sent) && sent@ == notices(final(self)@))
                && final(self)@ == appended(old(self)@, item@),
            !old(self)@.open ==> r == Err::<Vec<Notification>, ListError>(ListError::MutationUnreachable)
                && final(self)@ == old(self)@,
    {
        if !self.open {
            return Err(ListError::MutationUnreachable);
        }
        let ghost before = self@;
        self.items.push(item);
        assert(views(self.items@) =~= before.items.push(item@));
        let length = self.items.len();
        let mut sent: Vec<Notification> = Vec::new();
        let mut i: usize = 0;
        while i < self.subscribers
            invariant
                i <= self.subscribers,
                length == self.items.len(),
                self@ == appended(before, item@),
                sent@ =~= notices(self@).subrange(0, i as int),
            decreases self.subscribers - i,
        {
            sent.push(Notification { subscriber: i, length });
            i += 1;
        }
        assert(sent@ =~= notices(self@));
        Ok(sent)
    }

    /// The shared append path of the user's action and the producer: adds the
    /// item numbered after the current length.
    pub fn add_item(&mut self) -> (r: Result<Vec<Notification>, ListError>)
        ensures
            old(self)@.open ==> (r matches Ok(sent) && sent@ == notices(final(self)@))
                && final(self)@ == appended(old(self)@, numbered_item(old(self)@.items.len())),
            !old(self)@.open ==> r == Err::<Vec<Notification>, ListError>(ListError::MutationUnreachable)
                && final(self)@ == old(self)@,
    {
        let count = self.items.len();
        let item = ListItem::numbered(count);
        self.append(item)
    }

    /// Tears the list down: later appends fail.
    pub fn close(&mut self)
        ensures
            final(self)@ == (StateView { open: false, ..old(self)@ }),
    {
        self.open = false;
    }
}

} // verus!
