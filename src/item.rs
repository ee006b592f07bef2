use vstd::prelude::*;

verus! {

/// The characters of `n` written in decimal, without leading zeros.
pub open spec fn decimal(n: nat) -> Seq<char>
    decreases n,
{
    let digit = seq!['0', '1', '2', '3', '4', '5', '6', '7', '8', '9'][(n % 10) as int];
    if n < 10 {
        seq![digit]
    } else {
        decimal(n / 10).push(digit)
    }
}

/// Title of the item produced when the list holds `count` items: `Item <count>`.
pub open spec fn numbered_title(count: nat) -> Seq<char> {
    seq!['I', 't', 'e', 'm', ' '] + decimal(count)
}

/// Subtitle shared by every produced item.
pub open spec fn placeholder_subtitle() -> Seq<char> {
    seq!['S', 'u', 'b', 't', 'i', 't', 'l', 'e']
}

/// What one row displays.
pub struct ItemView {
    pub title: Seq<char>,
    pub subtitle: Seq<char>,
}

/// The display data of one row: immutable once built.
#[derive(Debug)]
pub struct ListItem {
    title: String,
    subtitle: String,
}

impl View for ListItem {
    type V = ItemView;

    closed spec fn view(&self) -> ItemView {
        ItemView { title: self.title@, subtitle: self.subtitle@ }
    }
}

impl Clone for ListItem {
    fn clone(&self) -> (r: Self)
        ensures
            r == *self,
    {
        ListItem { title: self.title.clone(), subtitle: self.subtitle.clone() }
    }
}

/// Relies on std's `ToString` for `usize` (its `Display`): the number in
/// decimal, without sign or leading zeros.
#[verifier::external_body]
fn decimal_text(n: usize) -> (r: String)
    ensures
        r@ == decimal(n as nat),
{
    n.to_string()
}

fn numbered_title_text(count: usize) -> (r: String)
    ensures
        r@ == numbered_title(count as nat),
{
    let digits = decimal_text(count);
    let prefix = String::from_str("Item ");
    proof {
        reveal_strlit("Item ");
    }
    let r = prefix.concat(digits.as_str());
    assert(r@ =~= numbered_title(count as nat));
    r
}

impl PartialEq for ListItem {
    fn eq(&self, other: &ListItem) -> (r: bool) {
        self.title == other.title && self.subtitle == other.subtitle
    }
}

impl vstd::std_specs::cmp::PartialEqSpecImpl for ListItem {
    open spec fn obeys_eq_spec() -> bool {
        true
    }

    open spec fn eq_spec(&self, other: &ListItem) -> bool {
        self@ == other@
    }
}

impl ListItem {
    pub fn new(title: String, subtitle: String) -> (r: ListItem)
        ensures
            r@ == (ItemView { title: title@, subtitle: subtitle@ }),
    {
        ListItem { title, subtitle }
    }

    /// The item that is appended when the list holds `count` items.
    pub fn numbered(count: usize) -> (r: ListItem)
        ensures
            r@ == (ItemView { title: numbered_title(count as nat), subtitle: placeholder_subtitle() }),
    {
        let subtitle = "Subtitle".to_string();
        proof {
            reveal_strlit("Subtitle");
        }
        assert(subtitle@ =~= placeholder_subtitle());
        ListItem::new(numbered_title_text(count), subtitle)
    }

    pub fn title(&self) -> (r: &str)
        ensures
            r@ == self@.title,
    {
        self.title.as_str()
    }

    pub fn subtitle(&self) -> (r: &str)
        ensures
            r@ == self@.subtitle,
    {
        self.subtitle.as_str()
    }
}

} // verus!
