use item_registry::handlers::{add_item, delete_item, get_items, index, update_item};
use item_registry::item::Item;
use item_registry::registry::Registry;
use item_registry::response::{Body, Response, Status};

fn item(id: usize, name: &str) -> Item {
    Item { id, name: name.to_string() }
}

fn answer(status: Status, body: Body) -> Response {
    Response { status, body }
}

#[test]
fn status_codes() {
    assert_eq!(Status::Success.code(), 200);
    assert_eq!(Status::Created.code(), 201);
    assert_eq!(Status::NoContent.code(), 204);
    assert_eq!(Status::BadRequest.code(), 400);
    assert_eq!(Status::NotFound.code(), 404);
}

#[test]
fn index_greets() {
    let response = index();
    assert_eq!(response.status.code(), 200);
    assert_eq!(response.body, Body::Text("Welcome to Rust REST API!".to_string()));
}

#[test]
fn get_items_on_an_empty_registry() {
    let registry = Registry::new();
    assert_eq!(get_items(&registry), answer(Status::Success, Body::Items(vec![])));
}

#[test]
fn get_items_lists_in_order() {
    let mut registry = Registry::new();
    registry.add(item(2, "b"));
    registry.add(item(1, "a"));
    let response = get_items(&registry);
    assert_eq!(response, answer(Status::Success, Body::Items(vec![item(2, "b"), item(1, "a")])));
}

#[test]
fn add_item_stores_and_answers_created() {
    let mut registry = Registry::new();
    let response = add_item(&mut registry, Some(item(1, "foo")));
    assert_eq!(response, answer(Status::Created, Body::Empty));
    assert_eq!(registry.list(), vec![item(1, "foo")]);
}

#[test]
fn add_item_with_a_duplicate_id_is_created_too() {
    let mut registry = Registry::new();
    assert_eq!(add_item(&mut registry, Some(item(1, "a"))).status, Status::Created);
    assert_eq!(add_item(&mut registry, Some(item(1, "b"))).status, Status::Created);
    assert_eq!(registry.list(), vec![item(1, "a"), item(1, "b")]);
}

#[test]
fn add_item_without_a_readable_body_is_a_bad_request() {
    let mut registry = Registry::new();
    registry.add(item(1, "a"));
    let response = add_item(&mut registry, None);
    assert_eq!(response, answer(Status::BadRequest, Body::Empty));
    assert_eq!(registry.list(), vec![item(1, "a")]);
}

#[test]
fn update_item_answers_with_the_renamed_item() {
    let mut registry = Registry::new();
    registry.add(item(1, "foo"));
    registry.add(item(2, "baz"));
    let response = update_item(&mut registry, 2, Some(item(2, "qux")));
    assert_eq!(response, answer(Status::Success, Body::Item(item(2, "qux"))));
    assert_eq!(registry.list(), vec![item(1, "foo"), item(2, "qux")]);
}

#[test]
fn update_item_goes_by_the_id_of_the_path() {
    let mut registry = Registry::new();
    registry.add(item(1, "one"));
    registry.add(item(2, "two"));
    let response = update_item(&mut registry, 1, Some(item(2, "uno")));
    assert_eq!(response, answer(Status::Success, Body::Item(item(1, "uno"))));
    assert_eq!(registry.list(), vec![item(1, "uno"), item(2, "two")]);
}

#[test]
fn update_item_of_a_missing_id_is_not_found() {
    let mut registry = Registry::new();
    registry.add(item(1, "one"));
    let response = update_item(&mut registry, 5, Some(item(1, "uno")));
    assert_eq!(response, answer(Status::NotFound, Body::Empty));
    assert_eq!(registry.list(), vec![item(1, "one")]);
}

#[test]
fn update_item_without_a_readable_body_is_a_bad_request() {
    let mut registry = Registry::new();
    registry.add(item(1, "one"));
    assert_eq!(update_item(&mut registry, 1, None), answer(Status::BadRequest, Body::Empty));
    assert_eq!(update_item(&mut registry, 5, None), answer(Status::BadRequest, Body::Empty));
    assert_eq!(registry.list(), vec![item(1, "one")]);
}

#[test]
fn delete_item_answers_no_content() {
    let mut registry = Registry::new();
    registry.add(item(1, "a"));
    registry.add(item(2, "b"));
    registry.add(item(1, "c"));
    let response = delete_item(&mut registry, 1);
    assert_eq!(response, answer(Status::NoContent, Body::Empty));
    assert_eq!(registry.list(), vec![item(2, "b"), item(1, "c")]);
}

#[test]
fn delete_item_of_a_missing_id_is_not_found() {
    let mut registry = Registry::new();
    registry.add(item(1, "a"));
    let response = delete_item(&mut registry, 2);
    assert_eq!(response, answer(Status::NotFound, Body::Empty));
    assert_eq!(registry.list(), vec![item(1, "a")]);
}

#[test]
fn one_item_from_creation_to_removal() {
    let mut registry = Registry::new();

    let created = add_item(&mut registry, Some(item(1, "foo")));
    assert_eq!(created.status.code(), 201);
    assert_eq!(created.body, Body::Empty);

    let listed = get_items(&registry);
    assert_eq!(listed.status.code(), 200);
    assert_eq!(listed.body, Body::Items(vec![item(1, "foo")]));

    let updated = update_item(&mut registry, 1, Some(item(1, "bar")));
    assert_eq!(updated.status.code(), 200);
    assert_eq!(updated.body, Body::Item(item(1, "bar")));

    let deleted = delete_item(&mut registry, 1);
    assert_eq!(deleted.status.code(), 204);
    assert_eq!(deleted.body, Body::Empty);

    let listed = get_items(&registry);
    assert_eq!(listed.status.code(), 200);
    assert_eq!(listed.body, Body::Items(vec![]));

    let missing = delete_item(&mut registry, 1);
    assert_eq!(missing.status.code(), 404);
    assert_eq!(missing.body, Body::Empty);
}
