use vstd::prelude::*;

use crate::handlers::{is_validation_error, shows_items, ApiError, NewItem};
use crate::models::{shows_item, CreateItemRequest, Item, ItemResponse};
use crate::store::{inserted, later};
use crate::time::rfc3339_of;
use crate::validation::request_valid;

verus! {

/// An item put in place is among the stored items afterwards.
pub proof fn lemma_inserted_item_is_stored(before: Seq<Item>, after: Seq<Item>, item: Item)
    requires
        inserted(before, after, item),
    ensures
        exists|j: int| 0 <= j < after.len() && after[j] == item,
{
    let p = choose|p: int|
        0 <= p <= before.len() && after == before.insert(p, item) && (forall|j: int|
            0 <= j < p ==> later((#[trigger] before[j]).created_at, item.created_at)) && (
        forall|j: int| p <= j < before.len() ==> !later((#[trigger] before[j]).created_at, item.created_at));
    assert(after[p] == item);
}

/// A valid request, once its row is stored under some id, is shown by every later
/// listing with the name and quantity that were asked for.
pub proof fn lemma_created_item_is_listed(
    payload: CreateItemRequest,
    row: NewItem,
    id: i64,
    before: Seq<Item>,
    after: Seq<Item>,
    listed: Seq<ItemResponse>,
)
    requires
        request_valid(payload),
        row.name@ == payload.name@,
        row.quantity == payload.quantity,
        inserted(
            before,
            after,
            Item { id, name: row.name, quantity: row.quantity, created_at: row.created_at },
        ),
        shows_items(listed, after),
    ensures
        exists|j: int|
            0 <= j < listed.len() && (#[trigger] listed[j]).name@ == payload.name@ && listed[j].quantity
                == payload.quantity,
{
    let item = Item { id, name: row.name, quantity: row.quantity, created_at: row.created_at };
    lemma_inserted_item_is_stored(before, after, item);
    let j = choose|j: int| 0 <= j < after.len() && after[j] == item;
    assert(listed[j].name@ == payload.name@);
}

/// A request with a quantity below zero is refused with status 400, and the details
/// hold an entry for `quantity`.
pub proof fn lemma_negative_quantity_is_reported(
    req: CreateItemRequest,
    e: ApiError,
)
    requires
        req.quantity < 0,
        is_validation_error(e, req),
    ensures
        !request_valid(req),
        e.status == 400,
        exists|j: int|
            0 <= j < e.body.details@.len() && (#[trigger] e.body.details@[j]).field@ == "quantity"@,
{
    let n: int = if req.name@.len() >= 1 { 0 } else { 1 };
    assert(e.body.details@[n].field@ == "quantity"@);
}

/// A request with an empty name is refused with status 400, and the details hold an
/// entry for `name`.
pub proof fn lemma_empty_name_is_reported(req: CreateItemRequest, e: ApiError)
    requires
        req.name@.len() == 0,
        is_validation_error(e, req),
    ensures
        !request_valid(req),
        e.status == 400,
        exists|j: int|
            0 <= j < e.body.details@.len() && (#[trigger] e.body.details@[j]).field@ == "name"@,
{
    assert(e.body.details@[0].field@ == "name"@);
}

/// Listing nothing shows nothing.
pub proof fn lemma_empty_listing(listed: Seq<ItemResponse>)
    requires
        shows_items(listed, Seq::<Item>::empty()),
    ensures
        listed == Seq::<ItemResponse>::empty(),
{
    assert(listed =~= Seq::<ItemResponse>::empty());
}

/// Three items created one after another into an empty store, none stamped earlier
/// than the one before it, are listed newest first.
pub proof fn lemma_newest_first(
    s1: Seq<Item>,
    s2: Seq<Item>,
    s3: Seq<Item>,
    a: Item,
    b: Item,
    c: Item,
)
    requires
        inserted(Seq::<Item>::empty(), s1, a),
        inserted(s1, s2, b),
        inserted(s2, s3, c),
        !later(a.created_at, b.created_at),
        !later(b.created_at, c.created_at),
    ensures
        s3 == seq![c, b, a],
{
    assert(s1 == seq![a]) by {
        assert(Seq::<Item>::empty().insert(0, a) =~= seq![a]);
    }
    let pos_b = choose|p: int|
        0 <= p <= s1.len() && s2 == s1.insert(p, b) && (forall|j: int|
            0 <= j < p ==> later((#[trigger] s1[j]).created_at, b.created_at)) && (forall|j: int|
            p <= j < s1.len() ==> !later((#[trigger] s1[j]).created_at, b.created_at));
    if pos_b > 0 {
        assert(later(s1[0].created_at, b.created_at));
    }
    assert(s2 =~= seq![b, a]);
    let pos_c = choose|p: int|
        0 <= p <= s2.len() && s3 == s2.insert(p, c) && (forall|j: int|
            0 <= j < p ==> later((#[trigger] s2[j]).created_at, c.created_at)) && (forall|j: int|
            p <= j < s2.len() ==> !later((#[trigger] s2[j]).created_at, c.created_at));
    if pos_c > 0 {
        assert(later(s2[0].created_at, c.created_at));
    }
    assert(s3 =~= seq![c, b, a]);
}

/// The response that shows an item carries its id, name and quantity unchanged, and
/// its creation instant as the RFC 3339 text of that same instant.
pub proof fn lemma_response_keeps_fields(r: ItemResponse, item: Item)
    requires
        shows_item(r, item),
    ensures
        r.id == item.id,
        r.name@ == item.name@,
        r.quantity == item.quantity,
        r.created_at@ == rfc3339_of(item.created_at.secs, item.created_at.nanos),
{
}

} // verus!
