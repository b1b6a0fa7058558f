//! Answers to HTTP requests.

use crate::json;
use crate::json::{Json, JsonView};
use vstd::prelude::*;

verus! {

/// An answer: its status code and its JSON body, if it has one.
#[derive(PartialEq, Eq, Debug)]
pub struct Reply {
    pub status: u16,
    pub body: Option<Json>,
}

/// The mathematical content of an answer.
pub struct ReplyView {
    pub status: u16,
    pub body: Option<JsonView>,
}

impl View for Reply {
    type V = ReplyView;

    open spec fn view(&self) -> ReplyView {
        ReplyView {
            status: self.status,
            body: match self.body {
                Some(b) => Some(b@),
                None => None,
            },
        }
    }
}

/// The body that carries an error message.
pub open spec fn error_body(message: Seq<char>) -> JsonView {
    JsonView::object().with("error"@, JsonView::Str(message))
}

/// An answer with a body.
pub open spec fn json_reply(status: u16, body: JsonView) -> ReplyView {
    ReplyView { status, body: Some(body) }
}

/// An answer that carries an error message.
pub open spec fn error_reply(status: u16, message: Seq<char>) -> ReplyView {
    json_reply(status, error_body(message))
}

/// An answer without a body.
pub open spec fn empty_reply(status: u16) -> ReplyView {
    ReplyView { status, body: None }
}

/// An answer that lists items.
pub open spec fn items_reply(items: Seq<JsonView>) -> ReplyView {
    json_reply(200, JsonView::object().with("items"@, JsonView::Arr(items)))
}

impl Reply {
    /// An answer with a body.
    pub fn json(status: u16, body: Json) -> (r: Reply)
        ensures
            r@ == json_reply(status, body@),
    {
        Reply { status, body: Some(body) }
    }

    /// An answer that carries an error message.
    pub fn error(status: u16, message: &str) -> (r: Reply)
        ensures
            r@ == error_reply(status, message@),
    {
        Reply::json(status, Json::object().with("error", Json::text(message)))
    }

    /// An answer that lists items.
    pub fn items(items: Vec<Json>) -> (r: Reply)
        ensures
            r@ == items_reply(json::json_views(items@)),
    {
        Reply::json(200, Json::object().with("items", Json::array(items)))
    }

    /// An answer without a body.
    pub fn empty(status: u16) -> (r: Reply)
        ensures
            r@ == empty_reply(status),
    {
        Reply { status, body: None }
    }
}

/// An answer with an error tells its message and nothing else, under its status; one
/// that lists items holds them all.
pub proof fn law_answers_carry_what_they_are_given(
    status: u16,
    message: Seq<char>,
    items: Seq<JsonView>,
    name: Seq<char>,
)
    ensures
        error_reply(status, message).status == status,
        error_reply(status, message).body matches Some(body) && body.get(name) == (if name
            == "error"@ {
            Some(JsonView::Str(message))
        } else {
            None
        }),
        items_reply(items).status == 200,
        items_reply(items).body matches Some(body) && body.get("items"@) == Some(
            JsonView::Arr(items),
        ),
        empty_reply(status).status == status && empty_reply(status).body is None,
{
    broadcast use json::lemma_get_with;

}

} // verus!
