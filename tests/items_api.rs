use production_backend_api::handlers::{
    create_item, get_items, insert_outcome, NewItem, StorageError, STATUS_BAD_REQUEST,
    STATUS_CREATED, STATUS_INTERNAL_SERVER_ERROR,
};
use production_backend_api::models::{
    CreateItemRequest, ErrorResponse, FieldMessages, Item, ItemResponse, ValidationErrors,
};
use production_backend_api::store::ItemStore;
use production_backend_api::time::{Timestamp, MAX_TIMESTAMP_SECS, MIN_TIMESTAMP_SECS};

fn request(name: &str, quantity: i32) -> CreateItemRequest {
    CreateItemRequest { name: name.to_string(), quantity }
}

fn field_names(e: &ErrorResponse) -> Vec<String> {
    e.details.iter().map(|f| f.field.clone()).collect()
}

fn stamped(name: &str, quantity: i32, secs: i64) -> NewItem {
    NewItem { name: name.to_string(), quantity, created_at: Timestamp { secs, nanos: 0 } }
}

#[test]
fn test_create_and_get_items() {
    let mut store = ItemStore::new();
    let row = create_item(request("Test Item", 42)).unwrap();
    assert_eq!(insert_outcome(store.create_item(row)).unwrap(), STATUS_CREATED);

    let items = get_items(Ok(store.list_items())).unwrap();
    assert_eq!(items.len(), 1);
    assert_eq!(items[0].name, "Test Item");
    assert_eq!(items[0].quantity, 42);
    assert_eq!(items[0].id, 1);
    assert!(chrono::DateTime::parse_from_rfc3339(&items[0].created_at).is_ok());
}

#[test]
fn test_create_item_validation() {
    let e = create_item(request("Invalid Item", -1)).unwrap_err();
    assert_eq!(e.status, STATUS_BAD_REQUEST);
    assert_eq!(e.body.error, "validation_error");
    assert_eq!(e.body.details.len(), 1);
    assert_eq!(e.body.details[0].field, "quantity");
    assert_eq!(e.body.details[0].messages, vec!["Quantity must be 0 or greater".to_string()]);
}

#[test]
fn test_create_item_empty_name() {
    let e = create_item(request("", 10)).unwrap_err();
    assert_eq!(e.status, STATUS_BAD_REQUEST);
    assert_eq!(e.body.details.len(), 1);
    assert_eq!(e.body.details[0].field, "name");
    assert_eq!(e.body.details[0].messages, vec!["Name cannot be empty".to_string()]);
}

#[test]
fn both_violations_are_reported_in_order() {
    let e = create_item(request("", -5)).unwrap_err();
    assert_eq!(e.status, STATUS_BAD_REQUEST);
    assert_eq!(field_names(&e.body), vec!["name".to_string(), "quantity".to_string()]);
}

#[test]
fn zero_quantity_and_one_char_name_are_valid() {
    assert!(request("x", 0).validate().is_ok());
    let row = create_item(request("x", 0)).unwrap();
    assert_eq!(row.name, "x");
    assert_eq!(row.quantity, 0);
}

#[test]
fn validate_lists_each_failing_field() {
    let errors = request("", i32::MIN).validate().unwrap_err();
    assert_eq!(errors.fields.len(), 2);
    assert_eq!(errors.fields[0].messages, vec!["Name cannot be empty".to_string()]);
    assert_eq!(errors.fields[1].messages, vec!["Quantity must be 0 or greater".to_string()]);
}

#[test]
fn empty_store_lists_nothing() {
    let store = ItemStore::new();
    let items = get_items(Ok(store.list_items())).unwrap();
    assert!(items.is_empty());
}

#[test]
fn listing_is_newest_first() {
    let mut store = ItemStore::new();
    assert!(store.create_item(stamped("A", 1, 1_000)).is_ok());
    assert!(store.create_item(stamped("B", 2, 2_000)).is_ok());
    assert!(store.create_item(stamped("C", 3, 3_000)).is_ok());
    let names: Vec<String> = store.list_items().into_iter().map(|i| i.name).collect();
    assert_eq!(names, vec!["C".to_string(), "B".to_string(), "A".to_string()]);
}

#[test]
fn equal_instants_list_the_later_insert_first() {
    let mut store = ItemStore::new();
    assert!(store.create_item(stamped("A", 1, 5)).is_ok());
    assert!(store.create_item(stamped("B", 2, 5)).is_ok());
    assert!(store.create_item(stamped("old", 3, 1)).is_ok());
    let listed = store.list_items();
    let ids: Vec<i64> = listed.iter().map(|i| i.id).collect();
    assert_eq!(ids, vec![2, 1, 3]);
}

#[test]
fn failed_fetch_is_a_server_error() {
    let e = get_items(Err(StorageError { message: "disk gone".to_string() })).unwrap_err();
    assert_eq!(e.status, STATUS_INTERNAL_SERVER_ERROR);
    assert_eq!(e.body.error, "internal_server_error");
    assert_eq!(e.body.details.len(), 1);
    assert_eq!(e.body.details[0].field, "server");
    assert_eq!(e.body.details[0].messages, vec!["Failed to fetch items".to_string()]);
}

#[test]
fn failed_insert_is_a_server_error() {
    let e = insert_outcome(Err(StorageError { message: "locked".to_string() })).unwrap_err();
    assert_eq!(e.status, STATUS_INTERNAL_SERVER_ERROR);
    assert_eq!(e.body.error, "internal_server_error");
    assert_eq!(e.body.details[0].field, "server");
    assert_eq!(e.body.details[0].messages, vec!["Failed to create item".to_string()]);
}

#[test]
fn error_response_drops_fields_without_messages() {
    let errors = ValidationErrors {
        fields: vec![
            FieldMessages { field: "a".to_string(), messages: vec![] },
            FieldMessages { field: "b".to_string(), messages: vec!["m".to_string()] },
        ],
    };
    let r = ErrorResponse::from(errors);
    assert_eq!(r.error, "validation_error");
    assert_eq!(field_names(&r), vec!["b".to_string()]);
}

#[test]
fn item_response_shows_the_item() {
    let item = Item {
        id: 7,
        name: "Widget".to_string(),
        quantity: 3,
        created_at: Timestamp { secs: 946_684_800, nanos: 500_000_000 },
    };
    let r = ItemResponse::from(item);
    assert_eq!(r.id, 7);
    assert_eq!(r.name, "Widget");
    assert_eq!(r.quantity, 3);
    assert_eq!(r.created_at, "2000-01-01T00:00:00.500+00:00");
}

#[test]
fn created_at_parses_back_to_the_same_instant() {
    let t = Timestamp { secs: 1_700_000_123, nanos: 456_789_000 };
    let text = t.to_rfc3339();
    let back = chrono::DateTime::parse_from_rfc3339(&text).unwrap();
    assert_eq!(back.timestamp(), t.secs);
    assert_eq!(back.timestamp_subsec_nanos(), t.nanos);
}

#[test]
fn epoch_is_written_in_rfc3339() {
    assert_eq!(Timestamp { secs: 0, nanos: 0 }.to_rfc3339(), "1970-01-01T00:00:00+00:00");
}

#[test]
fn timestamp_parts_are_checked() {
    assert!(Timestamp::from_parts(0, 0).is_some());
    assert!(Timestamp::from_parts(MAX_TIMESTAMP_SECS, 999_999_999).is_some());
    assert!(Timestamp::from_parts(MAX_TIMESTAMP_SECS + 1, 0).is_none());
    assert!(Timestamp::from_parts(MIN_TIMESTAMP_SECS, 0).is_some());
    assert!(Timestamp::from_parts(MIN_TIMESTAMP_SECS - 1, 0).is_none());
    assert!(Timestamp::from_parts(59, 1_500_000_000).is_some());
    assert!(Timestamp::from_parts(-1, 1_500_000_000).is_some());
    assert!(Timestamp::from_parts(58, 1_500_000_000).is_none());
    assert!(Timestamp::from_parts(59, 2_000_000_000).is_none());
}

#[test]
fn extreme_instants_format() {
    let max = Timestamp::from_parts(MAX_TIMESTAMP_SECS, 0).unwrap();
    assert!(max.to_rfc3339().starts_with("+262142-12-31T23:59:59"));
    let min = Timestamp::from_parts(MIN_TIMESTAMP_SECS, 0).unwrap();
    assert!(min.to_rfc3339().starts_with("-262143-01-01T00:00:00"));
}
