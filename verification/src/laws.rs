//! What holds of the registry's operations taken together, stated over the
//! sequences that their contracts speak of.

use vstd::prelude::*;
use crate::item::ItemView;
use crate::registry::{first_with_id, has_id, lemma_first_with_id, renamed, without};

verus! {

/// `s` after each item of `items` was added to it in turn.
pub open spec fn add_all(s: Seq<ItemView>, items: Seq<ItemView>) -> Seq<ItemView>
    decreases items.len(),
{
    if items.len() == 0 {
        s
    } else {
        add_all(s.push(items[0]), items.drop_first())
    }
}

/// Adding items one after another leaves what was there in place and puts
/// the new items behind it in the order in which they were added.
pub proof fn lemma_add_all_appends(s: Seq<ItemView>, items: Seq<ItemView>)
    ensures
        add_all(s, items) == s + items,
    decreases items.len(),
{
    if items.len() == 0 {
        assert(s + items =~= s);
    } else {
        lemma_add_all_appends(s.push(items[0]), items.drop_first());
        assert(s.push(items[0]) + items.drop_first() =~= s + items);
    }
}

/// A registry that starts empty lists its items in exactly the order in
/// which they were added.
pub proof fn lemma_add_all_from_empty(items: Seq<ItemView>)
    ensures
        add_all(Seq::empty(), items) == items,
{
    lemma_add_all_appends(Seq::empty(), items);
    assert(Seq::<ItemView>::empty() + items =~= items);
}

/// Adding an item makes the registry one longer and puts the item last,
/// whether or not its identifier was there before.
pub proof fn lemma_add_keeps_duplicates(s: Seq<ItemView>, item: ItemView)
    ensures
        s.push(item).len() == s.len() + 1,
        s.push(item).last() == item,
        has_id(s.push(item), item.id),
        forall|i: int| 0 <= i < s.len() ==> s.push(item)[i] == s[i],
{
    assert(s.push(item)[s.len() as int].id == item.id);
}

/// Renaming touches the first item that carries the identifier and nothing
/// else: the length, every identifier and every other item stay.
pub proof fn lemma_renamed_first_match_only(s: Seq<ItemView>, id: int, name: Seq<char>)
    requires
        has_id(s, id),
    ensures
        0 <= first_with_id(s, id) < s.len(),
        renamed(s, id, name).len() == s.len(),
        renamed(s, id, name)[first_with_id(s, id)] == (ItemView { id, name }),
        forall|j: int|
            0 <= j < s.len() && j != first_with_id(s, id) ==> renamed(s, id, name)[j] == s[j],
        forall|j: int| 0 <= j < s.len() ==> (#[trigger] renamed(s, id, name)[j]).id == s[j].id,
        first_with_id(renamed(s, id, name), id) == first_with_id(s, id),
{
    lemma_first_with_id(s, id);
    let r = renamed(s, id, name);
    let k = first_with_id(s, id);
    assert forall|j: int| 0 <= j < k implies (#[trigger] r[j]).id != id by {
        assert(s[j].id != id);
    }
    crate::registry::lemma_first_with_id_unique(r, id, k);
}

/// Where no other item with the identifier bore the new name already, the
/// renamed item is afterwards the only one with that identifier and name.
pub proof fn lemma_renamed_exactly_one(s: Seq<ItemView>, id: int, name: Seq<char>)
    requires
        has_id(s, id),
        forall|j: int|
            0 <= j < s.len() && j != first_with_id(s, id) ==> #[trigger] s[j] != (ItemView {
                id,
                name,
            }),
    ensures
        forall|j: int|
            0 <= j < s.len() ==> (#[trigger] renamed(s, id, name)[j] == (ItemView { id, name })
                <==> j == first_with_id(s, id)),
{
    lemma_renamed_first_match_only(s, id, name);
}

/// Renaming by an identifier that no item carries changes nothing.
pub proof fn lemma_renamed_absent(s: Seq<ItemView>, id: int, name: Seq<char>)
    requires
        !has_id(s, id),
    ensures
        renamed(s, id, name) == s,
{
}

/// Removing by an identifier that some item carries makes the registry one
/// shorter. The items before the removed one stay in place, and those
/// behind it move up by one, so the order of what remains is kept.
pub proof fn lemma_without_keeps_order(s: Seq<ItemView>, id: int)
    requires
        has_id(s, id),
    ensures
        0 <= first_with_id(s, id) < s.len(),
        s[first_with_id(s, id)].id == id,
        without(s, id).len() == s.len() - 1,
        forall|j: int| 0 <= j < first_with_id(s, id) ==> without(s, id)[j] == s[j],
        forall|j: int|
            first_with_id(s, id) <= j < s.len() - 1 ==> without(s, id)[j] == s[j + 1],
{
    lemma_first_with_id(s, id);
}

/// Where no other item equals the removed one, it is absent afterwards.
pub proof fn lemma_without_removed_absent(s: Seq<ItemView>, id: int)
    requires
        has_id(s, id),
        forall|j: int|
            0 <= j < s.len() && j != first_with_id(s, id) ==> #[trigger] s[j] != s[first_with_id(
                s,
                id,
            )],
    ensures
        !without(s, id).contains(s[first_with_id(s, id)]),
{
    lemma_without_keeps_order(s, id);
    let k = first_with_id(s, id);
    let w = without(s, id);
    assert forall|j: int| 0 <= j < w.len() implies w[j] != s[k] by {
        if j < k {
            assert(w[j] == s[j]);
        } else {
            assert(w[j] == s[j + 1]);
        }
    }
}

/// Removing by an identifier that no item carries changes nothing.
pub proof fn lemma_without_absent(s: Seq<ItemView>, id: int)
    requires
        !has_id(s, id),
    ensures
        without(s, id) == s,
{
}

} // verus!
