//! Items: the pieces of transaction data the framework itself knows about,
//! each with the number that identifies it and the raw form it crosses the
//! boundary in.

use vstd::prelude::*;
use crate::cstr::{c_text, c_wire, from_wire, is_c_text, lemma_wire_round_trip, to_wire};

verus! {

/// The kinds of item the framework keeps for a transaction.
#[derive(Clone, Copy, Debug, PartialEq, Eq, Structural)]
pub enum ItemType {
    /// The service name.
    Service,
    /// The user name.
    User,
    /// The terminal name.
    Tty,
    /// The requesting host name.
    RHost,
    /// The conversation callback structure.
    Conv,
    /// The authentication token.
    AuthTok,
    /// The previous authentication token.
    OldAuthTok,
    /// The requesting user name.
    RUser,
    /// The prompt used when asking for a user name.
    UserPrompt,
    /// The delay callback used after a failure.
    FailDelay,
    /// The X display name.
    XDisplay,
    /// The X authentication data.
    XAuthData,
    /// The kind of the authentication token.
    AuthTokType,
}

impl ItemType {
    /// The number the framework identifies this kind of item by.
    pub open spec fn spec_id(self) -> int {
        match self {
            ItemType::Service => 1,
            ItemType::User => 2,
            ItemType::Tty => 3,
            ItemType::RHost => 4,
            ItemType::Conv => 5,
            ItemType::AuthTok => 6,
            ItemType::OldAuthTok => 7,
            ItemType::RUser => 8,
            ItemType::UserPrompt => 9,
            ItemType::FailDelay => 10,
            ItemType::XDisplay => 11,
            ItemType::XAuthData => 12,
            ItemType::AuthTokType => 13,
        }
    }

    /// The number the framework identifies this kind of item by.
    pub fn id(self) -> (r: u32)
        ensures
            r == self.spec_id(),
            1 <= r <= 13,
    {
        match self {
            ItemType::Service => 1,
            ItemType::User => 2,
            ItemType::Tty => 3,
            ItemType::RHost => 4,
            ItemType::Conv => 5,
            ItemType::AuthTok => 6,
            ItemType::OldAuthTok => 7,
            ItemType::RUser => 8,
            ItemType::UserPrompt => 9,
            ItemType::FailDelay => 10,
            ItemType::XDisplay => 11,
            ItemType::XAuthData => 12,
            ItemType::AuthTokType => 13,
        }
    }
}

/// The conversation callback structure, as the two addresses it is made of.
#[derive(Clone, Copy, Debug, PartialEq, Eq, Structural)]
pub struct PamConv {
    /// Address of the callback function.
    pub callback: usize,
    /// Address of the data handed back to the callback.
    pub appdata: usize,
}

/// The raw form of an item: wire text, or the callback structure.
#[derive(Clone, Debug, PartialEq, Eq)]
pub enum RawItem {
    /// Text on the wire, terminator included.
    Text(Vec<u8>),
    /// The conversation callback structure.
    Struct(PamConv),
}

/// What a raw item holds.
pub enum RawItemView {
    Text(Seq<u8>),
    Struct(PamConv),
}

impl View for RawItem {
    type V = RawItemView;

    open spec fn view(&self) -> RawItemView {
        match self {
            RawItem::Text(raw) => RawItemView::Text(raw@),
            RawItem::Struct(conv) => RawItemView::Struct(*conv),
        }
    }
}

/// An item as module logic holds it. The text variants hold the text's bytes,
/// without terminator.
#[derive(Clone, Debug, PartialEq, Eq)]
pub enum Item {
    Service(Vec<u8>),
    User(Vec<u8>),
    Tty(Vec<u8>),
    RHost(Vec<u8>),
    AuthTok(Vec<u8>),
    OldAuthTok(Vec<u8>),
    RUser(Vec<u8>),
    UserPrompt(Vec<u8>),
    Conv(PamConv),
}

/// What an item holds.
pub enum ItemView {
    Service(Seq<u8>),
    User(Seq<u8>),
    Tty(Seq<u8>),
    RHost(Seq<u8>),
    AuthTok(Seq<u8>),
    OldAuthTok(Seq<u8>),
    RUser(Seq<u8>),
    UserPrompt(Seq<u8>),
    Conv(PamConv),
}

impl ItemView {
    /// The kind of this item.
    pub open spec fn item_type(self) -> ItemType {
        match self {
            ItemView::Service(_) => ItemType::Service,
            ItemView::User(_) => ItemType::User,
            ItemView::Tty(_) => ItemType::Tty,
            ItemView::RHost(_) => ItemType::RHost,
            ItemView::AuthTok(_) => ItemType::AuthTok,
            ItemView::OldAuthTok(_) => ItemType::OldAuthTok,
            ItemView::RUser(_) => ItemType::RUser,
            ItemView::UserPrompt(_) => ItemType::UserPrompt,
            ItemView::Conv(_) => ItemType::Conv,
        }
    }

    /// Whether this item has a raw form: its text holds no terminator.
    pub open spec fn marshals(self) -> bool {
        match self {
            ItemView::Service(t) => is_c_text(t),
            ItemView::User(t) => is_c_text(t),
            ItemView::Tty(t) => is_c_text(t),
            ItemView::RHost(t) => is_c_text(t),
            ItemView::AuthTok(t) => is_c_text(t),
            ItemView::OldAuthTok(t) => is_c_text(t),
            ItemView::RUser(t) => is_c_text(t),
            ItemView::UserPrompt(t) => is_c_text(t),
            ItemView::Conv(_) => true,
        }
    }

    /// The raw form of this item.
    pub open spec fn raw(self) -> RawItemView {
        match self {
            ItemView::Service(t) => RawItemView::Text(c_wire(t)),
            ItemView::User(t) => RawItemView::Text(c_wire(t)),
            ItemView::Tty(t) => RawItemView::Text(c_wire(t)),
            ItemView::RHost(t) => RawItemView::Text(c_wire(t)),
            ItemView::AuthTok(t) => RawItemView::Text(c_wire(t)),
            ItemView::OldAuthTok(t) => RawItemView::Text(c_wire(t)),
            ItemView::RUser(t) => RawItemView::Text(c_wire(t)),
            ItemView::UserPrompt(t) => RawItemView::Text(c_wire(t)),
            ItemView::Conv(c) => RawItemView::Struct(c),
        }
    }
}

/// Whether module logic has an item of kind `t`, and `raw` has its shape:
/// the callback structure for `Conv`, wire text for the text kinds.
pub open spec fn raw_fits(t: ItemType, raw: RawItemView) -> bool {
    match t {
        ItemType::Conv => raw is Struct,
        ItemType::FailDelay | ItemType::XDisplay | ItemType::XAuthData | ItemType::AuthTokType => false,
        _ => raw is Text,
    }
}

/// The item of kind `t` that `raw` stands for. Meaningful where `raw_fits`.
pub open spec fn item_of_raw(t: ItemType, raw: RawItemView) -> ItemView {
    match raw {
        RawItemView::Struct(c) => ItemView::Conv(c),
        RawItemView::Text(w) => match t {
            ItemType::Service => ItemView::Service(c_text(w)),
            ItemType::User => ItemView::User(c_text(w)),
            ItemType::Tty => ItemView::Tty(c_text(w)),
            ItemType::RHost => ItemView::RHost(c_text(w)),
            ItemType::AuthTok => ItemView::AuthTok(c_text(w)),
            ItemType::OldAuthTok => ItemView::OldAuthTok(c_text(w)),
            ItemType::RUser => ItemView::RUser(c_text(w)),
            _ => ItemView::UserPrompt(c_text(w)),
        },
    }
}

/// Whether `raw` has the shape that belongs to items of kind `t`.
pub fn fits(t: ItemType, raw: &RawItem) -> (r: bool)
    ensures
        r == raw_fits(t, raw@),
{
    match t {
        ItemType::Conv => match raw {
            RawItem::Struct(_) => true,
            RawItem::Text(_) => false,
        },
        ItemType::FailDelay | ItemType::XDisplay | ItemType::XAuthData | ItemType::AuthTokType => false,
        _ => match raw {
            RawItem::Text(_) => true,
            RawItem::Struct(_) => false,
        },
    }
}

impl View for Item {
    type V = ItemView;

    open spec fn view(&self) -> ItemView {
        match self {
            Item::Service(t) => ItemView::Service(t@),
            Item::User(t) => ItemView::User(t@),
            Item::Tty(t) => ItemView::Tty(t@),
            Item::RHost(t) => ItemView::RHost(t@),
            Item::AuthTok(t) => ItemView::AuthTok(t@),
            Item::OldAuthTok(t) => ItemView::OldAuthTok(t@),
            Item::RUser(t) => ItemView::RUser(t@),
            Item::UserPrompt(t) => ItemView::UserPrompt(t@),
            Item::Conv(c) => ItemView::Conv(*c),
        }
    }
}

impl Item {
    /// The kind of this item.
    pub fn type_id(&self) -> (t: ItemType)
        ensures
            t == self@.item_type(),
    {
        match self {
            Item::Service(_) => ItemType::Service,
            Item::User(_) => ItemType::User,
            Item::Tty(_) => ItemType::Tty,
            Item::RHost(_) => ItemType::RHost,
            Item::AuthTok(_) => ItemType::AuthTok,
            Item::OldAuthTok(_) => ItemType::OldAuthTok,
            Item::RUser(_) => ItemType::RUser,
            Item::UserPrompt(_) => ItemType::UserPrompt,
            Item::Conv(_) => ItemType::Conv,
        }
    }

    /// Whether this item has a raw form.
    pub fn marshals(&self) -> (r: bool)
        ensures
            r == self@.marshals(),
    {
        match self {
            Item::Service(t) => crate::cstr::holds_no_nul(t),
            Item::User(t) => crate::cstr::holds_no_nul(t),
            Item::Tty(t) => crate::cstr::holds_no_nul(t),
            Item::RHost(t) => crate::cstr::holds_no_nul(t),
            Item::AuthTok(t) => crate::cstr::holds_no_nul(t),
            Item::OldAuthTok(t) => crate::cstr::holds_no_nul(t),
            Item::RUser(t) => crate::cstr::holds_no_nul(t),
            Item::UserPrompt(t) => crate::cstr::holds_no_nul(t),
            Item::Conv(_) => true,
        }
    }

    /// Gives the item up for its raw form.
    pub fn into_raw(self) -> (raw: RawItem)
        requires
            self@.marshals(),
        ensures
            raw@ == self@.raw(),
            raw_fits(self@.item_type(), raw@),
    {
        match self {
            Item::Service(t) => RawItem::Text(to_wire(&t)),
            Item::User(t) => RawItem::Text(to_wire(&t)),
            Item::Tty(t) => RawItem::Text(to_wire(&t)),
            Item::RHost(t) => RawItem::Text(to_wire(&t)),
            Item::AuthTok(t) => RawItem::Text(to_wire(&t)),
            Item::OldAuthTok(t) => RawItem::Text(to_wire(&t)),
            Item::RUser(t) => RawItem::Text(to_wire(&t)),
            Item::UserPrompt(t) => RawItem::Text(to_wire(&t)),
            Item::Conv(c) => RawItem::Struct(c),
        }
    }

    /// Builds the item of kind `t` from its raw form.
    pub fn from_raw(t: ItemType, raw: &RawItem) -> (item: Item)
        requires
            raw_fits(t, raw@),
        ensures
            item@ == item_of_raw(t, raw@),
            item@.item_type() == t,
            item@.marshals(),
    {
        match raw {
            RawItem::Struct(c) => Item::Conv(*c),
            RawItem::Text(w) => {
                let text = from_wire(w);
                match t {
                    ItemType::Service => Item::Service(text),
                    ItemType::User => Item::User(text),
                    ItemType::Tty => Item::Tty(text),
                    ItemType::RHost => Item::RHost(text),
                    ItemType::AuthTok => Item::AuthTok(text),
                    ItemType::OldAuthTok => Item::OldAuthTok(text),
                    ItemType::RUser => Item::RUser(text),
                    _ => Item::UserPrompt(text),
                }
            },
        }
    }
}

/// An item turned into its raw form and built again from it is the same item.
pub proof fn lemma_item_round_trip(item: ItemView)
    requires
        item.marshals(),
    ensures
        raw_fits(item.item_type(), item.raw()),
        item_of_raw(item.item_type(), item.raw()) == item,
{
    match item {
        ItemView::Service(t) => lemma_wire_round_trip(t),
        ItemView::User(t) => lemma_wire_round_trip(t),
        ItemView::Tty(t) => lemma_wire_round_trip(t),
        ItemView::RHost(t) => lemma_wire_round_trip(t),
        ItemView::AuthTok(t) => lemma_wire_round_trip(t),
        ItemView::OldAuthTok(t) => lemma_wire_round_trip(t),
        ItemView::RUser(t) => lemma_wire_round_trip(t),
        ItemView::UserPrompt(t) => lemma_wire_round_trip(t),
        ItemView::Conv(_) => {},
    }
}

} // verus!
