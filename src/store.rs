use vstd::prelude::*;

use crate::handlers::{NewItem, StorageError};
use crate::models::Item;
use crate::time::Timestamp;

verus! {

/// `a` is a strictly later instant than `b`.
pub open spec fn later(a: Timestamp, b: Timestamp) -> bool {
    a.secs > b.secs || (a.secs == b.secs && a.nanos > b.nanos)
}

/// `a` comes before `b` in a listing: it was created later, or at the same instant
/// and with a greater id.
pub open spec fn listed_before(a: Item, b: Item) -> bool {
    later(a.created_at, b.created_at) || (a.created_at == b.created_at && a.id > b.id)
}

/// `after` is `before` with `item` put in place: behind every item created strictly
/// later, ahead of all others.
pub open spec fn inserted(before: Seq<Item>, after: Seq<Item>, item: Item) -> bool {
    exists|p: int|
        0 <= p <= before.len() && after == before.insert(p, item) && (forall|j: int|
            0 <= j < p ==> later((#[trigger] before[j]).created_at, item.created_at)) && (
        forall|j: int| p <= j < before.len() ==> !later((#[trigger] before[j]).created_at, item.created_at))
}

impl Item {
    /// A copy of the item.
    pub fn duplicate(&self) -> (r: Item)
        ensures
            r == *self,
    {
        Item {
            id: self.id,
            name: self.name.clone(),
            quantity: self.quantity,
            created_at: self.created_at,
        }
    }
}

/// Items kept in memory, newest first, each with the id it was given on insertion.
pub struct ItemStore {
    items: Vec<Item>,
    next_id: i64,
}

impl ItemStore {
    /// The stored items in the order a listing gives them.
    pub closed spec fn rows(&self) -> Seq<Item> {
        self.items@
    }

    /// The id that the next inserted item receives.
    pub closed spec fn next_id(&self) -> i64 {
        self.next_id
    }

    pub closed spec fn wf(&self) -> bool {
        &&& self.next_id >= 1
        &&& forall|i: int| 0 <= i < self.items.len() ==> (#[trigger] self.items@[i]).wf()
        &&& forall|i: int| 0 <= i < self.items.len() ==> 1 <= (#[trigger] self.items@[i]).id < self.next_id
        &&& forall|i: int, j: int|
            0 <= i < j < self.items.len() ==> listed_before(#[trigger] self.items@[i], #[trigger] self.items@[j])
    }

    /// An empty store; its first item gets id 1.
    pub fn new() -> (r: ItemStore)
        ensures
            r.wf(),
            r.rows() == Seq::<Item>::empty(),
            r.next_id() == 1,
    {
        ItemStore { items: Vec::new(), next_id: 1 }
    }

    /// Every stored item, newest first; an empty store gives an empty list.
    pub fn list_items(&self) -> (r: Vec<Item>)
        requires
            self.wf(),
        ensures
            r@ == self.rows(),
            forall|i: int| 0 <= i < r.len() ==> (#[trigger] r@[i]).wf(),
    {
        let mut r: Vec<Item> = Vec::new();
        let mut i: usize = 0;
        while i < self.items.len()
            invariant
                i <= self.items.len(),
                r@ == self.items@.subrange(0, i as int),
            decreases self.items.len() - i,
        {
            r.push(self.items[i].duplicate());
            i = i + 1;
            assert(r@ == self.items@.subrange(0, i as int));
        }
        assert(r@ == self.items@.subrange(0, self.items.len() as int));
        r
    }

    /// Stores `row` under the next id, behind every item created strictly later and
    /// ahead of all others. Fails, and stores nothing, once the ids are used up.
    pub fn create_item(&mut self, row: NewItem) -> (r: Result<(), StorageError>)
        requires
            old(self).wf(),
            row.created_at.wf(),
        ensures
            final(self).wf(),
            r is Ok <==> old(self).next_id() < i64::MAX,
            r is Ok ==> final(self).next_id() == old(self).next_id() + 1 && inserted(
                old(self).rows(),
                final(self).rows(),
                Item {
                    id: old(self).next_id(),
                    name: row.name,
                    quantity: row.quantity,
                    created_at: row.created_at,
                },
            ),
            r is Err ==> final(self).rows() == old(self).rows() && final(self).next_id()
                == old(self).next_id(),
    {
        if self.next_id == i64::MAX {
            return Err(StorageError { message: "no id is left for a new item".to_owned() });
        }
        let t = row.created_at;
        let mut p: usize = 0;
        while p < self.items.len() && (self.items[p].created_at.secs > t.secs || (
        self.items[p].created_at.secs == t.secs && self.items[p].created_at.nanos > t.nanos))
            invariant
                p <= self.items.len(),
                forall|j: int| 0 <= j < p ==> later((#[trigger] self.items@[j]).created_at, t),
            decreases self.items.len() - p,
        {
            p = p + 1;
        }
        let ghost before = self.items@;
        let item = Item { id: self.next_id, name: row.name, quantity: row.quantity, created_at: t };
        proof {
            assert forall|j: int| p <= j < before.len() implies !later(
                (#[trigger] before[j]).created_at,
                t,
            ) by {
                if j > p {
                    assert(listed_before(before[p as int], before[j]));
                }
            }
        }
        self.items.insert(p, item);
        self.next_id = self.next_id + 1;
        assert(inserted(before, self.items@, self.items@[p as int]));
        Ok(())
    }
}

} // verus!
