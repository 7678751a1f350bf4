//! What a handler answers: a status and a body, as plain values.

use vstd::prelude::*;
use crate::item::{views, Item, ItemView};

verus! {

/// The statuses that the service answers with.
#[derive(Debug, PartialEq, Eq, Structural, Clone, Copy)]
pub enum Status {
    /// The request succeeded and the body carries the result.
    Success,
    /// An item was stored.
    Created,
    /// The request succeeded and there is nothing to send back.
    NoContent,
    /// The body of the request could not be read as an item.
    BadRequest,
    /// No item carries the identifier that the request names.
    NotFound,
}

/// The number that stands for `status` on the wire.
pub open spec fn code_of(status: Status) -> int {
    match status {
        Status::Success => 200,
        Status::Created => 201,
        Status::NoContent => 204,
        Status::BadRequest => 400,
        Status::NotFound => 404,
    }
}

impl Status {
    /// The number that stands for this status on the wire.
    pub fn code(&self) -> (code: u16)
        ensures
            code == code_of(*self),
    {
        match self {
            Status::Success => 200,
            Status::Created => 201,
            Status::NoContent => 204,
            Status::BadRequest => 400,
            Status::NotFound => 404,
        }
    }
}

/// The mathematical value of a [`Body`].
pub ghost enum BodyView {
    Empty,
    Text(Seq<char>),
    Item(ItemView),
    Items(Seq<ItemView>),
}

/// What a response carries besides its status.
#[derive(Debug, PartialEq, Eq)]
pub enum Body {
    /// Nothing.
    Empty,
    /// Plain text.
    Text(String),
    /// One item.
    Item(Item),
    /// A list of items, in order.
    Items(Vec<Item>),
}

impl View for Body {
    type V = BodyView;

    open spec fn view(&self) -> BodyView {
        match self {
            Body::Empty => BodyView::Empty,
            Body::Text(text) => BodyView::Text(text@),
            Body::Item(item) => BodyView::Item(item@),
            Body::Items(items) => BodyView::Items(views(items@)),
        }
    }
}

/// The mathematical value of a [`Response`].
pub ghost struct ResponseView {
    pub status: Status,
    pub body: BodyView,
}

/// The answer to one request.
#[derive(Debug, PartialEq, Eq)]
pub struct Response {
    pub status: Status,
    pub body: Body,
}

impl View for Response {
    type V = ResponseView;

    open spec fn view(&self) -> ResponseView {
        ResponseView { status: self.status, body: self.body@ }
    }
}

} // verus!
