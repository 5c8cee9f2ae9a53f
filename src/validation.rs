use vstd::prelude::*;

use crate::models::{CreateItemRequest, FieldMessages, ValidationErrors};

verus! {

/// The message for a name that is empty.
pub open spec fn name_message() -> Seq<char> {
    "Name cannot be empty"@
}

/// The message for a quantity below zero.
pub open spec fn quantity_message() -> Seq<char> {
    "Quantity must be 0 or greater"@
}

/// A name is accepted when it holds at least one character.
pub open spec fn name_valid(name: Seq<char>) -> bool {
    name.len() >= 1
}

/// A quantity is accepted when it is zero or more.
pub open spec fn quantity_valid(quantity: i32) -> bool {
    quantity >= 0
}

/// A request is accepted when its name and its quantity both are.
pub open spec fn request_valid(req: CreateItemRequest) -> bool {
    name_valid(req.name@) && quantity_valid(req.quantity)
}

/// `f` is the entry for `field` with the one message `message`.
pub open spec fn single_message(f: FieldMessages, field: Seq<char>, message: Seq<char>) -> bool {
    &&& f.field@ == field
    &&& f.messages@.len() == 1
    &&& f.messages@[0]@ == message
}

/// `fields` lists the fields of `req` that break a rule: first the name, if it does,
/// then the quantity, if it does, each with its one message.
pub open spec fn reports_violations(fields: Seq<FieldMessages>, req: CreateItemRequest) -> bool {
    let n: int = if name_valid(req.name@) { 0 } else { 1 };
    let q: int = if quantity_valid(req.quantity) { 0 } else { 1 };
    &&& fields.len() == n + q
    &&& !name_valid(req.name@) ==> single_message(fields[0], "name"@, name_message())
    &&& !quantity_valid(req.quantity) ==> single_message(fields[n], "quantity"@, quantity_message())
}

fn single_field(field: &str, message: &str) -> (r: FieldMessages)
    ensures
        single_message(r, field@, message@),
{
    let mut messages: Vec<String> = Vec::new();
    messages.push(message.to_owned());
    FieldMessages { field: field.to_owned(), messages }
}

impl CreateItemRequest {
    /// Checks the request against the rules for a new item: every rule is checked,
    /// and each failing field is reported.
    pub fn validate(&self) -> (r: Result<(), ValidationErrors>)
        ensures
            r is Ok <==> request_valid(*self),
            r matches Err(e) ==> reports_violations(e.fields@, *self),
    {
        let mut fields: Vec<FieldMessages> = Vec::new();
        if self.name.as_str().is_empty() {
            fields.push(single_field("name", "Name cannot be empty"));
        }
        if self.quantity < 0 {
            fields.push(single_field("quantity", "Quantity must be 0 or greater"));
        }
        if fields.len() == 0 {
            Ok(())
        } else {
            Err(ValidationErrors { fields })
        }
    }
}

} // verus!
