use vstd::prelude::*;

use crate::models::{
    shows_item, with_messages, CreateItemRequest, ErrorResponse, FieldMessages, Item,
    ItemResponse,
};
use crate::time::{now, Timestamp};
use crate::validation::{reports_violations, request_valid, single_message};

verus! {

pub const STATUS_CREATED: u16 = 201;

pub const STATUS_BAD_REQUEST: u16 = 400;

pub const STATUS_INTERNAL_SERVER_ERROR: u16 = 500;

/// A failure of the store, described for the server's log only.
#[derive(Debug)]
pub struct StorageError {
    pub message: String,
}

/// A failed request: the HTTP status and the body sent back.
#[derive(Debug)]
pub struct ApiError {
    pub status: u16,
    pub body: ErrorResponse,
}

/// A validated item, ready to be inserted into the store.
#[derive(Debug)]
pub struct NewItem {
    pub name: String,
    pub quantity: i32,
    pub created_at: Timestamp,
}

/// `rs` shows `items` one for one, in the same order.
pub open spec fn shows_items(rs: Seq<ItemResponse>, items: Seq<Item>) -> bool {
    &&& rs.len() == items.len()
    &&& forall|i: int| 0 <= i < items.len() ==> shows_item(#[trigger] rs[i], items[i])
}

/// `e` is the generic answer to a failure of the store: status 500, the code
/// `internal_server_error` and one `server` entry with `message`.
pub open spec fn is_server_error(e: ApiError, message: Seq<char>) -> bool {
    &&& e.status == STATUS_INTERNAL_SERVER_ERROR
    &&& e.body.error@ == "internal_server_error"@
    &&& e.body.details@.len() == 1
    &&& single_message(e.body.details@[0], "server"@, message)
}

/// `e` is the answer to a request that broke the rules: status 400, the code
/// `validation_error` and an entry for each failing field.
pub open spec fn is_validation_error(e: ApiError, req: CreateItemRequest) -> bool {
    &&& e.status == STATUS_BAD_REQUEST
    &&& e.body.error@ == "validation_error"@
    &&& reports_violations(e.body.details@, req)
}

fn server_error(message: &str) -> (r: ApiError)
    ensures
        is_server_error(r, message@),
{
    let mut messages: Vec<String> = Vec::new();
    messages.push(message.to_owned());
    let mut details: Vec<FieldMessages> = Vec::new();
    details.push(FieldMessages { field: "server".to_owned(), messages });
    ApiError {
        status: STATUS_INTERNAL_SERVER_ERROR,
        body: ErrorResponse { error: "internal_server_error".to_owned(), details },
    }
}

/// Entries with one message each are all kept.
proof fn lemma_single_messages_kept(fields: Seq<FieldMessages>)
    requires
        forall|i: int| 0 <= i < fields.len() ==> (#[trigger] fields[i]).messages@.len() == 1,
    ensures
        with_messages(fields) == fields,
    decreases fields.len(),
{
    if fields.len() > 0 {
        let rest = fields.drop_first();
        assert forall|i: int| 0 <= i < rest.len() implies (#[trigger] rest[i]).messages@.len()
            == 1 by {
            assert(rest[i] == fields[i + 1]);
        }
        lemma_single_messages_kept(rest);
        assert(seq![fields[0]] + rest == fields);
    }
}

/// The answer to a listing, from what the store gave back: on success every item
/// shown, in the store's order; on failure the generic server error.
pub fn get_items(fetched: Result<Vec<Item>, StorageError>) -> (r: Result<
    Vec<ItemResponse>,
    ApiError,
>)
    requires
        fetched matches Ok(items) ==> forall|i: int| 0 <= i < items.len() ==> (#[trigger] items@[i]).wf(),
    ensures
        r is Ok <==> fetched is Ok,
        fetched matches Ok(items) ==> (r matches Ok(rs) && shows_items(rs@, items@)),
        fetched is Err ==> (r matches Err(e) && is_server_error(e, "Failed to fetch items"@)),
{
    match fetched {
        Ok(items) => {
            let mut rs: Vec<ItemResponse> = Vec::new();
            let mut i: usize = 0;
            while i < items.len()
                invariant
                    i <= items.len(),
                    forall|j: int| 0 <= j < items.len() ==> (#[trigger] items@[j]).wf(),
                    rs.len() == i,
                    forall|j: int| 0 <= j < i ==> shows_item(#[trigger] rs@[j], items@[j]),
                decreases items.len() - i,
            {
                rs.push(ItemResponse::of_item(&items[i]));
                i = i + 1;
            }
            Ok(rs)
        },
        Err(_) => Err(server_error("Failed to fetch items")),
    }
}

/// The first step of creating an item: a request that passes validation becomes the
/// row to insert, stamped with the current instant; one that fails is answered with
/// status 400 and its violations, and nothing is to be inserted.
pub fn create_item(payload: CreateItemRequest) -> (r: Result<NewItem, ApiError>)
    ensures
        r is Ok <==> request_valid(payload),
        r matches Ok(n) ==> (n.name@ == payload.name@ && n.quantity == payload.quantity
            && n.created_at.wf()),
        r matches Err(e) ==> is_validation_error(e, payload),
{
    match payload.validate() {
        Err(errors) => {
            let ghost fields = errors.fields@;
            let body = ErrorResponse::from(errors);
            proof {
                lemma_single_messages_kept(fields);
            }
            Err(ApiError { status: STATUS_BAD_REQUEST, body })
        },
        Ok(()) => {
            let created_at = now();
            Ok(NewItem { name: payload.name, quantity: payload.quantity, created_at })
        },
    }
}

/// The last step of creating an item, from what the store did with the row: status
/// 201 once it is inserted, else the generic server error.
pub fn insert_outcome(inserted: Result<(), StorageError>) -> (r: Result<u16, ApiError>)
    ensures
        inserted is Ok ==> r == Ok::<u16, ApiError>(STATUS_CREATED),
        inserted is Err ==> (r matches Err(e) && is_server_error(e, "Failed to create item"@)),
{
    match inserted {
        Ok(()) => Ok(STATUS_CREATED),
        Err(_) => Err(server_error("Failed to create item")),
    }
}

} // verus!
