//! The response envelope: a message and the list of regions found.

use vstd::prelude::*;

verus! {

/// One region as it is reported to a client.
#[derive(Debug, PartialEq, Eq)]
pub struct Item {
    pub code: i64,
    pub name: String,
}

/// What a contract says of an [`Item`]: its code and the characters of its name.
pub struct ItemView {
    pub code: i64,
    pub name: Seq<char>,
}

impl View for Item {
    type V = ItemView;

    open spec fn view(&self) -> ItemView {
        ItemView { code: self.code, name: self.name@ }
    }
}

/// The region that a row of the store describes: it is reported under the
/// code and the name that the store holds for it.
pub open spec fn item_of(code: i64, name: Seq<char>) -> ItemView {
    ItemView { code, name }
}

impl Item {
    /// The region that a row of the store describes, from its two columns.
    pub fn from_columns(code: i64, name: String) -> (item: Item)
        ensures
            item.code == code,
            item.name == name,
            item@ == item_of(code, name@),
    {
        Item { code, name }
    }
}

/// The envelope that every endpoint answers with.
#[derive(Debug, PartialEq, Eq)]
pub struct Result {
    pub message: &'static str,
    pub data: Vec<Item>,
}

/// What a contract says of a [`Result`]: the characters of the message and
/// the views of the items, in order.
pub struct ResultView {
    pub message: Seq<char>,
    pub data: Seq<ItemView>,
}

/// The views of a sequence of items, in the same order.
pub open spec fn item_views(items: Seq<Item>) -> Seq<ItemView> {
    items.map_values(|item: Item| item@)
}

impl View for Result {
    type V = ResultView;

    open spec fn view(&self) -> ResultView {
        ResultView { message: self.message@, data: item_views(self.data@) }
    }
}

/// The message of every successful answer.
pub const OK_MESSAGE: &'static str = "ok";

impl Result {
    /// Wraps the regions found in a successful envelope.
    pub fn ok(data: Vec<Item>) -> (envelope: Result)
        ensures
            envelope.message@ == OK_MESSAGE@,
            envelope.data == data,
    {
        Result { message: OK_MESSAGE, data }
    }

    /// An envelope that carries a message and no data.
    pub fn failure(message: &'static str) -> (envelope: Result)
        ensures
            envelope@ == (ResultView { message: message@, data: Seq::empty() }),
            envelope.data@.len() == 0,
    {
        let envelope = Result { message, data: Vec::new() };
        assert(item_views(envelope.data@) =~= Seq::empty());
        envelope
    }
}

} // verus!
