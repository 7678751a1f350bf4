//! The item, the one resource that the registry manages.

use vstd::prelude::*;

verus! {

/// The mathematical value of an [`Item`]: its identifier and the characters
/// of its name.
pub ghost struct ItemView {
    pub id: int,
    pub name: Seq<char>,
}

/// An identifier together with a name. Neither is constrained.
#[derive(Debug, PartialEq, Eq)]
pub struct Item {
    pub id: usize,
    pub name: String,
}

impl View for Item {
    type V = ItemView;

    open spec fn view(&self) -> ItemView {
        ItemView { id: self.id as int, name: self.name@ }
    }
}

impl Clone for Item {
    fn clone(&self) -> (copy: Item)
        ensures
            copy@ == self@,
    {
        Item { id: self.id, name: self.name.clone() }
    }
}

/// The values of a list of items, in the same order.
pub open spec fn views(items: Seq<Item>) -> Seq<ItemView> {
    Seq::new(items.len(), |i: int| items[i]@)
}

} // verus!
