//! The registry: an ordered list of items, kept in the order in which they
//! were added.

use vstd::prelude::*;
use crate::item::{views, Item, ItemView};

verus! {

/// Whether some item of `s` carries the identifier `id`.
pub open spec fn has_id(s: Seq<ItemView>, id: int) -> bool {
    exists|i: int| 0 <= i < s.len() && #[trigger] s[i].id == id
}

/// The position of the first item of `s` that carries the identifier `id`,
/// or the length of `s` where none does.
pub open spec fn first_with_id(s: Seq<ItemView>, id: int) -> int
    decreases s.len(),
{
    if s.len() == 0 {
        0
    } else if s[0].id == id {
        0
    } else {
        1 + first_with_id(s.drop_first(), id)
    }
}

/// `s` with the name of the first item that carries `id` replaced by `name`;
/// `s` itself where no item carries `id`.
pub open spec fn renamed(s: Seq<ItemView>, id: int, name: Seq<char>) -> Seq<ItemView> {
    if has_id(s, id) {
        s.update(first_with_id(s, id), ItemView { id, name })
    } else {
        s
    }
}

/// `s` without the first item that carries `id`; `s` itself where no item
/// carries `id`.
pub open spec fn without(s: Seq<ItemView>, id: int) -> Seq<ItemView> {
    if has_id(s, id) {
        s.remove(first_with_id(s, id))
    } else {
        s
    }
}

/// `first_with_id` lies within `0..=s.len()`, and no item before it carries
/// `id`. It is below the length exactly when some item carries `id`, and
/// then the item at that position does.
pub proof fn lemma_first_with_id(s: Seq<ItemView>, id: int)
    ensures
        0 <= first_with_id(s, id) <= s.len(),
        first_with_id(s, id) < s.len() <==> has_id(s, id),
        has_id(s, id) ==> s[first_with_id(s, id)].id == id,
        forall|j: int| 0 <= j < first_with_id(s, id) ==> (#[trigger] s[j]).id != id,
    decreases s.len(),
{
    if s.len() == 0 {
    } else if s[0].id == id {
    } else {
        let rest = s.drop_first();
        lemma_first_with_id(rest, id);
        let k = first_with_id(rest, id);
        assert forall|j: int| 0 <= j < 1 + k implies (#[trigger] s[j]).id != id by {
            if j > 0 {
                assert(s[j] == rest[j - 1]);
            }
        }
        if has_id(s, id) {
            let i = choose|i: int| 0 <= i < s.len() && #[trigger] s[i].id == id;
            assert(rest[i - 1].id == id);
        }
        if k < rest.len() {
            assert(s[1 + k] == rest[k]);
        }
    }
}

/// The one position that carries `id` and has no item carrying `id` before
/// it is `first_with_id`.
pub proof fn lemma_first_with_id_unique(s: Seq<ItemView>, id: int, i: int)
    requires
        0 <= i < s.len(),
        s[i].id == id,
        forall|j: int| 0 <= j < i ==> (#[trigger] s[j]).id != id,
    ensures
        has_id(s, id),
        first_with_id(s, id) == i,
{
    lemma_first_with_id(s, id);
    let k = first_with_id(s, id);
    if k < i {
        assert(s[k].id != id);
    }
}

/// The outcome of looking up an identifier that no item carries.
#[derive(Debug, PartialEq, Eq, Structural, Clone, Copy)]
pub struct NotFound;

/// An ordered list of items. Identifiers may repeat.
pub struct Registry {
    items: Vec<Item>,
}

impl View for Registry {
    type V = Seq<ItemView>;

    closed spec fn view(&self) -> Seq<ItemView> {
        views(self.items@)
    }
}

impl Registry {
    /// An empty registry.
    pub fn new() -> (registry: Registry)
        ensures
            registry@ == Seq::<ItemView>::empty(),
    {
        let registry = Registry { items: Vec::new() };
        assert(registry@ =~= Seq::<ItemView>::empty());
        registry
    }

    /// The position of the first item that carries `id`.
    fn position(&self, id: usize) -> (found: Option<usize>)
        ensures
            match found {
                Some(i) => has_id(self@, id as int) && i == first_with_id(self@, id as int)
                    && i < self.items.len(),
                None => !has_id(self@, id as int),
            },
    {
        let mut i: usize = 0;
        while i < self.items.len()
            invariant
                i <= self.items.len(),
                forall|j: int| 0 <= j < i ==> (#[trigger] self@[j]).id != id as int,
            decreases self.items.len() - i,
        {
            if self.items[i].id == id {
                proof {
                    lemma_first_with_id_unique(self@, id as int, i as int);
                }
                return Some(i);
            }
            i += 1;
        }
        None
    }

    /// All items, in the order in which they were added.
    pub fn list(&self) -> (items: Vec<Item>)
        ensures
            views(items@) == self@,
    {
        let mut items: Vec<Item> = Vec::new();
        let mut i: usize = 0;
        while i < self.items.len()
            invariant
                i <= self.items.len(),
                items.len() == i,
                forall|j: int| 0 <= j < i ==> (#[trigger] items[j])@ == self.items[j]@,
            decreases self.items.len() - i,
        {
            items.push(self.items[i].clone());
            i += 1;
        }
        assert(views(items@) =~= self@);
        items
    }

    /// Appends `item`, whatever identifiers the registry already holds.
    pub fn add(&mut self, item: Item)
        ensures
            final(self)@ == old(self)@.push(item@),
    {
        self.items.push(item);
        assert(self@ =~= old(self)@.push(item@));
    }

    /// Gives the first item that carries `id` the name `name` and returns the
    /// item as it then stands.
    pub fn update(&mut self, id: usize, name: String) -> (outcome: Result<Item, NotFound>)
        ensures
            final(self)@ == renamed(old(self)@, id as int, name@),
            match outcome {
                Ok(item) => has_id(old(self)@, id as int) && item@ == (ItemView {
                    id: id as int,
                    name: name@,
                }),
                Err(_) => !has_id(old(self)@, id as int) && final(self)@ == old(self)@,
            },
    {
        match self.position(id) {
            Some(i) => {
                let item = Item { id, name };
                self.items.set(i, item.clone());
                assert(self@ =~= renamed(old(self)@, id as int, name@));
                Ok(item)
            },
            None => Err(NotFound),
        }
    }

    /// Removes the first item that carries `id`; the items behind it move up
    /// by one place.
    pub fn delete(&mut self, id: usize) -> (outcome: Result<(), NotFound>)
        ensures
            final(self)@ == without(old(self)@, id as int),
            outcome.is_ok() <==> has_id(old(self)@, id as int),
            outcome.is_err() ==> final(self)@ == old(self)@,
    {
        match self.position(id) {
            Some(i) => {
                self.items.remove(i);
                assert(self@ =~= without(old(self)@, id as int));
                Ok(())
            },
            None => Err(NotFound),
        }
    }
}

} // verus!
