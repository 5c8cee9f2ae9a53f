use vstd::prelude::*;

use crate::time::{rfc3339_of, Timestamp};

verus! {

/// A stored item.
#[derive(Debug)]
pub struct Item {
    pub id: i64,
    pub name: String,
    pub quantity: i32,
    pub created_at: Timestamp,
}

/// An item as a client asks for it to be created; not yet validated.
#[derive(Debug)]
pub struct CreateItemRequest {
    pub name: String,
    pub quantity: i32,
}

/// An item as a client reads it, with its creation instant as RFC 3339 text.
#[derive(Debug)]
pub struct ItemResponse {
    pub id: i64,
    pub name: String,
    pub quantity: i32,
    pub created_at: String,
}

/// The messages that one field of a request drew.
#[derive(Debug)]
pub struct FieldMessages {
    pub field: String,
    pub messages: Vec<String>,
}

/// The body of every failed request: an error code and, per field, what was wrong.
#[derive(Debug)]
pub struct ErrorResponse {
    pub error: String,
    pub details: Vec<FieldMessages>,
}

/// What the validation of a request found, one entry per failing field.
#[derive(Debug)]
pub struct ValidationErrors {
    pub fields: Vec<FieldMessages>,
}

impl Item {
    pub open spec fn wf(&self) -> bool {
        self.created_at.wf()
    }
}

/// `r` shows `item`: the same id, name and quantity, and the creation instant as text.
pub open spec fn shows_item(r: ItemResponse, item: Item) -> bool {
    &&& r.id == item.id
    &&& r.name@ == item.name@
    &&& r.quantity == item.quantity
    &&& r.created_at@ == rfc3339_of(item.created_at.secs, item.created_at.nanos)
}

/// The entries of `fields` that hold at least one message, in their order.
pub open spec fn with_messages(fields: Seq<FieldMessages>) -> Seq<FieldMessages>
    decreases fields.len(),
{
    if fields.len() == 0 {
        Seq::empty()
    } else {
        let rest = with_messages(fields.drop_first());
        if fields[0].messages@.len() > 0 {
            seq![fields[0]] + rest
        } else {
            rest
        }
    }
}

impl ItemResponse {
    /// The response that shows `item`.
    pub fn from(item: Item) -> (r: ItemResponse)
        requires
            item.wf(),
        ensures
            shows_item(r, item),
    {
        let created_at = item.created_at.to_rfc3339();
        ItemResponse { id: item.id, name: item.name, quantity: item.quantity, created_at }
    }

    /// The response that shows `*item`, which is left as it is.
    pub fn of_item(item: &Item) -> (r: ItemResponse)
        requires
            item.wf(),
        ensures
            shows_item(r, *item),
    {
        let created_at = item.created_at.to_rfc3339();
        ItemResponse { id: item.id, name: item.name.clone(), quantity: item.quantity, created_at }
    }
}

impl ErrorResponse {
    /// The response to a request that failed validation: the code `validation_error`
    /// and each field that drew a message, with its messages, in order.
    pub fn from(errors: ValidationErrors) -> (r: ErrorResponse)
        ensures
            r.error@ == "validation_error"@,
            r.details@ == with_messages(errors.fields@),
    {
        let mut fields = errors.fields;
        let ghost all = fields@;
        let mut details: Vec<FieldMessages> = Vec::new();
        let ghost mut i: int = 0;
        while fields.len() > 0
            invariant
                0 <= i <= all.len(),
                fields@ == all.subrange(i, all.len() as int),
                with_messages(all) == details@ + with_messages(fields@),
            decreases fields.len(),
        {
            let f = fields.remove(0);
            proof {
                assert(fields@ == all.subrange(i + 1, all.len() as int));
            }
            if f.messages.len() > 0 {
                details.push(f);
                assert(with_messages(all) == details@ + with_messages(fields@));
            }
            proof {
                i = i + 1;
            }
        }
        ErrorResponse { error: "validation_error".to_owned(), details }
    }
}

} // verus!
