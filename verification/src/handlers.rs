//! The handlers of the service: one function for each kind of request.
//!
//! A handler takes the registry and what the request carries, and says what
//! to answer. A body that could not be read as an item arrives as `None`.

use vstd::prelude::*;
use crate::item::{Item, ItemView};
use crate::registry::{has_id, renamed, without, Registry};
use crate::response::{Body, BodyView, Response, ResponseView, Status};

verus! {

/// The text that greets a visitor.
pub open spec fn welcome() -> Seq<char> {
    "Welcome to Rust REST API!"@
}

/// Answers a request for the front page.
pub fn index() -> (response: Response)
    ensures
        response@ == (ResponseView { status: Status::Success, body: BodyView::Text(welcome()) }),
{
    Response { status: Status::Success, body: Body::Text("Welcome to Rust REST API!".to_owned()) }
}

/// Answers a request for all items: the whole registry, in order.
pub fn get_items(registry: &Registry) -> (response: Response)
    ensures
        response@ == (ResponseView { status: Status::Success, body: BodyView::Items(registry@) }),
{
    Response { status: Status::Success, body: Body::Items(registry.list()) }
}

/// Answers a request to store an item. The item is appended whatever the
/// registry holds; an unreadable body leaves the registry as it was.
pub fn add_item(registry: &mut Registry, body: Option<Item>) -> (response: Response)
    ensures
        response@.body == BodyView::Empty,
        match body {
            Some(item) => {
                &&& response.status == Status::Created
                &&& final(registry)@ == old(registry)@.push(item@)
            },
            None => {
                &&& response.status == Status::BadRequest
                &&& final(registry)@ == old(registry)@
            },
        },
{
    match body {
        Some(item) => {
            registry.add(item);
            Response { status: Status::Created, body: Body::Empty }
        },
        None => Response { status: Status::BadRequest, body: Body::Empty },
    }
}

/// Answers a request to rename the item that carries `id`. Only the name of
/// the body is used; the identifier in it is ignored. An unreadable body is
/// refused before the registry is looked at.
pub fn update_item(registry: &mut Registry, id: usize, body: Option<Item>) -> (response: Response)
    ensures
        match body {
            Some(item) => if has_id(old(registry)@, id as int) {
                &&& final(registry)@ == renamed(old(registry)@, id as int, item.name@)
                &&& response.status == Status::Success
                &&& response@.body == BodyView::Item(ItemView { id: id as int, name: item.name@ })
            } else {
                &&& final(registry)@ == old(registry)@
                &&& response.status == Status::NotFound
                &&& response@.body == BodyView::Empty
            },
            None => {
                &&& final(registry)@ == old(registry)@
                &&& response.status == Status::BadRequest
                &&& response@.body == BodyView::Empty
            },
        },
{
    match body {
        Some(item) => match registry.update(id, item.name) {
            Ok(updated) => Response { status: Status::Success, body: Body::Item(updated) },
            Err(_) => Response { status: Status::NotFound, body: Body::Empty },
        },
        None => Response { status: Status::BadRequest, body: Body::Empty },
    }
}

/// Answers a request to remove the item that carries `id`.
pub fn delete_item(registry: &mut Registry, id: usize) -> (response: Response)
    ensures
        response@.body == BodyView::Empty,
        if has_id(old(registry)@, id as int) {
            &&& final(registry)@ == without(old(registry)@, id as int)
            &&& response.status == Status::NoContent
        } else {
            &&& final(registry)@ == old(registry)@
            &&& response.status == Status::NotFound
        },
{
    match registry.delete(id) {
        Ok(_) => Response { status: Status::NoContent, body: Body::Empty },
        Err(_) => Response { status: Status::NotFound, body: Body::Empty },
    }
}

} // verus!
