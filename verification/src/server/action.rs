//! The contract between the server and its actions.

use crate::json::{object, push_member, render, string, Entry, Json, JsonValue, Member};
use crate::jsonrpc::{number_json, Error, Id, IdView, Version};
use crate::server::state::{LsState, LsStateView};
use vstd::prelude::*;

verus! {

/// A response that just acknowledges receipt of its request.
#[derive(Debug, PartialEq, Eq)]
pub struct Ack;

/// The lack of a response to a request.
#[derive(Debug, PartialEq, Eq)]
pub struct NoResponse;

/// Empty extra parameters to some request or notification.
#[derive(Debug, PartialEq, Eq)]
pub struct NoParams;

/// What the server sends back for a message.
#[derive(Debug, PartialEq)]
pub enum Reply {
    /// The request with this id succeeded, with this result.
    Success { id: usize, result: JsonValue },
    /// The message was turned down.
    Failure { id: Id, error: Error },
}

/// What a [`Reply`] says.
pub enum ReplyView {
    Success { id: usize, result: Json },
    Failure { id: IdView, error: Error },
}

impl View for Reply {
    type V = ReplyView;

    open spec fn view(&self) -> ReplyView {
        match self {
            Reply::Success { id, result } => ReplyView::Success { id: *id, result: result@ },
            Reply::Failure { id, error } => ReplyView::Failure { id: id@, error: *error },
        }
    }
}

impl ReplyView {
    /// The JSON object that goes out for a reply: a result, or an error,
    /// under the id of the message that it answers.
    pub open spec fn json_of(self) -> Json {
        match self {
            ReplyView::Success { id, result } => Json::Object(
                seq![
                    Entry { key: "jsonrpc"@, value: Json::String("2.0"@) },
                    Entry { key: "id"@, value: Json::Number(crate::jsonrpc::numeral(id as nat)) },
                    Entry { key: "result"@, value: result },
                ],
            ),
            ReplyView::Failure { id, error } => Json::Object(
                seq![
                    Entry { key: "jsonrpc"@, value: Json::String("2.0"@) },
                    Entry { key: "id"@, value: crate::jsonrpc::id_json(id) },
                    Entry { key: "error"@, value: error.json_of() },
                ],
            ),
        }
    }
}

impl Reply {
    /// This reply as a JSON value. The result is copied as it stands.
    pub fn to_json(&self) -> (r: JsonValue)
        ensures
            r@ == self@.json_of(),
    {
        let mut members: Vec<Member> = Vec::new();
        assert(crate::json::members_view(members@) =~= Seq::empty());
        push_member(&mut members, "jsonrpc", string(Version::V2.text()));
        match self {
            Reply::Success { id, result } => {
                push_member(&mut members, "id", number_json(*id as u64));
                push_member(&mut members, "result", result.duplicate());
            },
            Reply::Failure { id, error } => {
                push_member(&mut members, "id", id.to_json());
                push_member(&mut members, "error", error.to_json());
            },
        }
        assert(crate::json::members_view(members@) =~= self@.json_of()->Object_0);
        object(members)
    }

    /// This reply as JSON text.
    pub fn to_string(&self) -> (text: String)
        ensures
            text@ == crate::json::rendered(self@.json_of()),
    {
        render(&self.to_json())
    }
}

/// A response to some request.
///
/// Each function of this trait, and of the traits of actions below, comes
/// with a specification function beside it that says what it returns. An
/// implementation states its own; the ones given here stand for an
/// implementation that states nothing.
pub trait Response {
    /// The result that is sent for this response; `None` where nothing is
    /// sent.
    open spec fn result_of(&self) -> Option<Json> {
        None
    }

    /// The result to send, if any.
    fn result(&self) -> (r: Option<JsonValue>)
        ensures
            match r {
                Some(v) => self.result_of() == Some(v@),
                None => self.result_of() is None,
            },
    ;
}

/// An action taken by the server.
pub trait Action: Sized {
    /// Extra parameters that the action expects to receive.
    type Params;

    /// The well-known method string that identifies this action's kind of
    /// request or notification.
    open spec fn method_of() -> Seq<char> {
        Seq::empty()
    }

    /// The method string that identifies this action.
    fn method() -> (m: &'static str)
        ensures
            m@ == Self::method_of(),
    ;

    /// Whether a JSON value holds parameters that this action takes.
    open spec fn takes(value: Json) -> bool {
        true
    }

    /// Whether `params` are the parameters that a JSON value holds.
    open spec fn reads(value: Json, params: Self::Params) -> bool {
        true
    }

    /// Reads the parameters that a JSON value holds; `None` where it holds
    /// none that this action takes.
    fn read_params(value: &JsonValue) -> (r: Option<Self::Params>)
        ensures
            match r {
                Some(params) => Self::takes(value@) && Self::reads(value@, params),
                None => !Self::takes(value@),
            },
    ;

    /// The JSON value that stands for the parameters.
    open spec fn params_json(params: Self::Params) -> Json {
        Json::Null
    }

    /// Writes the parameters as a JSON value.
    fn write_params(params: &Self::Params) -> (r: JsonValue)
        ensures
            r@ == Self::params_json(*params),
    ;

    /// Makes the action. The state that the actions share is handed to
    /// `handle`.
    fn new() -> Self;
}

/// An action that handles requests from the client and replies with a
/// response.
pub trait RequestAction<Ctx>: Action {
    /// The kind of response for this request.
    type Response: Response;

    /// What `handle` does: how the state after it and its outcome depend on
    /// the id, the parameters and the state before it.
    open spec fn handles(
        id: usize,
        params: Self::Params,
        before: LsStateView,
        after: LsStateView,
        outcome: Result<Self::Response, ()>,
    ) -> bool {
        true
    }

    /// Handles the request. Its response is sent back under `id`; where it
    /// fails, nothing is sent.
    fn handle(&mut self, id: usize, params: Self::Params, state: &mut LsState, ctx: &mut Ctx) -> (r:
        Result<Self::Response, ()>)
        ensures
            Self::handles(id, params, old(state)@, final(state)@, r),
    ;
}

/// An action taken in response to some notification from the client.
pub trait NotificationAction<Ctx>: Action {
    /// What `handle` does: how the state after it and its outcome depend on
    /// the parameters and the state before it.
    open spec fn handles(
        params: Self::Params,
        before: LsStateView,
        after: LsStateView,
        outcome: Result<(), ()>,
    ) -> bool {
        true
    }

    /// Handles the notification. Nothing is sent back, whatever the outcome.
    fn handle(&mut self, params: Self::Params, state: &mut LsState, ctx: &mut Ctx) -> (r: Result<
        (),
        (),
    >)
        ensures
            Self::handles(params, old(state)@, final(state)@, r),
    ;
}

impl Response for Ack {
    open spec fn result_of(&self) -> Option<Json> {
        Some(Json::Object(Seq::empty()))
    }

    fn result(&self) -> (r: Option<JsonValue>) {
        let members: Vec<Member> = Vec::new();
        assert(crate::json::members_view(members@) =~= Seq::empty());
        Some(object(members))
    }
}

impl Response for NoResponse {
    open spec fn result_of(&self) -> Option<Json> {
        None
    }

    fn result(&self) -> (r: Option<JsonValue>) {
        None
    }
}

} // verus!
