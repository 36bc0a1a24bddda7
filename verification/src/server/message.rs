//! Messages: the envelope that a text holds, and requests and notifications
//! bound to the action that serves them.

use crate::json::{
    lemma_object_view, members_view, parse, parsed, position, render, rendered, Entry, Json,
    JsonValue, Member,
};
use crate::jsonrpc::{number_json, numeral, option_view, Error, Id, IdView};
use crate::server::action::{
    Action, NotificationAction, Reply, ReplyView, RequestAction, Response,
};
use crate::server::state::LsState;
use std::marker::PhantomData;
use vstd::prelude::*;

verus! {

/// A message as it came in: validated as an envelope, not yet bound to an
/// action. One that was read from JSON is well formed: its parameters are an
/// object, an array or `null`.
#[derive(Debug, PartialEq)]
pub struct RawMessage {
    pub method: String,
    pub id: Option<Id>,
    pub params: JsonValue,
}

/// What a [`RawMessage`] says.
pub struct RawMessageView {
    pub method: Seq<char>,
    pub id: Option<IdView>,
    pub params: Json,
}

impl View for RawMessage {
    type V = RawMessageView;

    open spec fn view(&self) -> RawMessageView {
        RawMessageView { method: self.method@, id: option_view(self.id), params: self.params@ }
    }
}

impl RawMessageView {
    /// The parameters of a message are an object, an array or `null`.
    pub open spec fn well_formed(self) -> bool {
        self.params is Object || self.params is Array || self.params is Null
    }
}

/// The parameters of an envelope whose `params` member is `params`: an object
/// or an array as it stands, `null` for `null` or for none, and `None` for
/// anything else.
pub open spec fn envelope_params(params: Option<Json>) -> Option<Json> {
    match params {
        None => Some(Json::Null),
        Some(Json::Null) => Some(Json::Null),
        Some(Json::Object(members)) => Some(Json::Object(members)),
        Some(Json::Array(items)) => Some(Json::Array(items)),
        Some(_) => None,
    }
}

/// The id of an envelope whose `id` member is `id`.
pub open spec fn envelope_id(id: Option<Json>) -> Option<IdView> {
    match id {
        Some(id) => Some(IdView::of_json(id)),
        None => None,
    }
}

/// The envelope that a JSON value holds. A value without a `method` member is
/// no message to serve (`Ok(None)`): it answers something the server sent.
pub open spec fn envelope_of(value: Json) -> Result<Option<RawMessageView>, Error> {
    match value.member("method"@) {
        None => Ok(None),
        Some(Json::String(method)) => match envelope_params(value.member("params"@)) {
            Some(params) => Ok(
                Some(RawMessageView { method, id: envelope_id(value.member("id"@)), params }),
            ),
            None => Err(Error::InvalidRequest),
        },
        Some(_) => Err(Error::InvalidRequest),
    }
}

/// An envelope that is read is well formed.
pub proof fn lemma_envelope_well_formed(value: Json)
    ensures
        envelope_of(value) matches Ok(Some(msg)) ==> msg.well_formed(),
{
}

/// The envelope that a text holds.
pub open spec fn message_of(text: Seq<char>) -> Result<Option<RawMessageView>, Error> {
    match parsed(text) {
        Some(value) => envelope_of(value),
        None => Err(Error::ParseError),
    }
}

/// What a result of reading an envelope says.
pub open spec fn envelope_view(r: Result<Option<RawMessage>, Error>) -> Result<
    Option<RawMessageView>,
    Error,
> {
    match r {
        Ok(Some(msg)) => Ok(Some(msg@)),
        Ok(None) => Ok(None),
        Err(e) => Err(e),
    }
}

impl RawMessage {
    /// Reads the envelope that a JSON value holds.
    pub fn from_json(value: JsonValue) -> (r: Result<Option<RawMessage>, Error>)
        ensures
            envelope_view(r) == envelope_of(value@),
    {
        let mut members = match value {
            JsonValue::Object(members) => members,
            _ => { return Ok(None); },
        };
        proof {
            lemma_object_view(members);
        }
        let ghost entries = members_view(members@);
        let method = match position(&members, "method") {
            Some(i) => match &members[i].value {
                JsonValue::String(s) => s.clone(),
                _ => { return Err(Error::InvalidRequest); },
            },
            None => { return Ok(None); },
        };
        let id = match position(&members, "id") {
            Some(i) => Some(Id::from_json(&members[i].value)),
            None => None,
        };
        let params = match position(&members, "params") {
            Some(i) => {
                let member = members.remove(i);
                assert(member.value@ == entries[i as int].value);
                let kept = match &member.value {
                    JsonValue::Null => true,
                    JsonValue::Object(_) => true,
                    JsonValue::Array(_) => true,
                    _ => false,
                };
                if !kept {
                    return Err(Error::InvalidRequest);
                }
                member.value
            },
            None => JsonValue::Null,
        };
        Ok(Some(RawMessage { method, id, params }))
    }

    /// Reads the envelope that a text holds.
    pub fn parse(text: &str) -> (r: Result<Option<RawMessage>, Error>)
        ensures
            envelope_view(r) == message_of(text@),
    {
        match parse(text) {
            Some(value) => RawMessage::from_json(value),
            None => Err(Error::ParseError),
        }
    }
}

/// A request bound to the action that serves it.
#[derive(Debug, PartialEq)]
pub struct Request<A: Action> {
    /// The unique request id.
    pub id: usize,
    /// The extra action-specific parameters.
    pub params: A::Params,
    /// This request's handler action.
    pub _action: PhantomData<A>,
}

/// A notification bound to the action that serves it.
#[derive(Debug, PartialEq)]
pub struct Notification<A: Action> {
    /// The extra action-specific parameters.
    pub params: A::Params,
    /// The action responsible for this notification.
    pub _action: PhantomData<A>,
}

/// The number under which a request with the id `id` is answered; `None`
/// where the message has no id, or none that is a number.
pub open spec fn request_id(id: Option<IdView>) -> Option<usize> {
    match id {
        Some(id) => id.numeric(),
        None => None,
    }
}

/// Whether action `A` makes a request of a message: the message has an id
/// that is a number, and parameters that the action takes.
pub open spec fn makes_request<A: Action>(msg: RawMessageView) -> bool {
    request_id(msg.id) is Some && A::takes(msg.params)
}

/// The JSON value of a request for action `A`.
pub open spec fn request_json<A: Action>(id: usize, params: A::Params) -> Json {
    Json::Object(
        seq![
            Entry { key: "jsonrpc"@, value: Json::String("2.0"@) },
            Entry { key: "id"@, value: Json::Number(numeral(id as nat)) },
            Entry { key: "method"@, value: Json::String(A::method_of()) },
            Entry { key: "params"@, value: A::params_json(params) },
        ],
    )
}

/// The JSON value of a notification for action `A`.
pub open spec fn notification_json<A: Action>(params: A::Params) -> Json {
    Json::Object(
        seq![
            Entry { key: "jsonrpc"@, value: Json::String("2.0"@) },
            Entry { key: "method"@, value: Json::String(A::method_of()) },
            Entry { key: "params"@, value: A::params_json(params) },
        ],
    )
}

/// The reply that goes out for a response to the request `id`.
pub open spec fn reply_of<R: Response>(id: usize, response: R) -> Option<ReplyView> {
    match response.result_of() {
        Some(result) => Some(ReplyView::Success { id, result }),
        None => None,
    }
}

/// What a reply that may be missing says.
pub open spec fn reply_view(reply: Option<Reply>) -> Option<ReplyView> {
    match reply {
        Some(reply) => Some(reply@),
        None => None,
    }
}

/// The reply to send for a response to the request `id`: its result under
/// that same id, or nothing where the response is none.
pub fn send<R: Response>(response: &R, id: usize) -> (reply: Option<Reply>)
    ensures
        reply_view(reply) == reply_of(id, *response),
{
    match response.result() {
        Some(result) => Some(Reply::Success { id, result }),
        None => None,
    }
}

/// One member of an object.
fn member(key: &str, value: JsonValue) -> (m: Member)
    ensures
        m.key@ == key@,
        m.value == value,
{
    Member { key: key.to_owned(), value }
}

impl RawMessage {
    /// Binds this message to the request action `A`. The message must carry
    /// parameters that the action takes and an id that is a number: one
    /// given as a number, or as a string of digits.
    pub fn parse_as_request<A: Action>(&self) -> (r: Result<Request<A>, Error>)
        ensures
            match r {
                Ok(request) => makes_request::<A>(self@) && request_id(self@.id) == Some(
                    request.id,
                ) && A::reads(self@.params, request.params),
                Err(e) => e == Error::InvalidRequest && !makes_request::<A>(self@),
            },
    {
        let id = match &self.id {
            Some(id) => id.numeric(),
            None => None,
        };
        let params = match A::read_params(&self.params) {
            Some(params) => params,
            None => { return Err(Error::InvalidRequest); },
        };
        match id {
            Some(id) => Ok(Request { id, params, _action: PhantomData }),
            None => Err(Error::InvalidRequest),
        }
    }

    /// Binds this message to the notification action `A`. The message must
    /// carry parameters that the action takes; its id plays no part.
    pub fn parse_as_notification<A: Action>(&self) -> (r: Result<Notification<A>, Error>)
        ensures
            match r {
                Ok(notification) => A::takes(self@.params) && A::reads(
                    self@.params,
                    notification.params,
                ),
                Err(e) => e == Error::InvalidRequest && !A::takes(self@.params),
            },
    {
        match A::read_params(&self.params) {
            Some(params) => Ok(Notification { params, _action: PhantomData }),
            None => Err(Error::InvalidRequest),
        }
    }
}

impl<A: Action> Request<A> {
    /// Runs the action on this request. What goes out, where the action
    /// succeeds, is its response under this request's id.
    pub fn dispatch<Ctx>(self, state: &mut LsState, ctx: &mut Ctx) -> (r: Result<
        (A::Response, Option<Reply>),
        (),
    >) where A: RequestAction<Ctx>
        ensures
            match r {
                Ok((response, reply)) => {
                    &&& A::handles(self.id, self.params, old(state)@, final(state)@, Ok(response))
                    &&& reply_view(reply) == reply_of(self.id, response)
                },
                Err(e) => A::handles(self.id, self.params, old(state)@, final(state)@, Err(e)),
            },
    {
        let id = self.id;
        let mut action = A::new();
        match action.handle(id, self.params, state, ctx) {
            Ok(response) => {
                let reply = send(&response, id);
                Ok((response, reply))
            },
            Err(e) => Err(e),
        }
    }

    /// This request as a JSON value.
    pub fn to_json(&self) -> (r: JsonValue)
        ensures
            r@ == request_json::<A>(self.id, self.params),
    {
        let mut members: Vec<Member> = Vec::new();
        members.push(member("jsonrpc", JsonValue::String("2.0".to_owned())));
        members.push(member("id", number_json(self.id as u64)));
        members.push(member("method", JsonValue::String(A::method().to_owned())));
        members.push(member("params", A::write_params(&self.params)));
        proof {
            lemma_object_view(members);
            assert(members_view(members@) =~= request_json::<A>(self.id, self.params)->Object_0);
        }
        JsonValue::Object(members)
    }

    /// This request as JSON text.
    pub fn to_string(&self) -> (text: String)
        ensures
            text@ == rendered(request_json::<A>(self.id, self.params)),
    {
        render(&self.to_json())
    }
}

impl<A: Action> Notification<A> {
    /// Runs the action on this notification. Nothing goes out, whatever the
    /// outcome.
    pub fn dispatch<Ctx>(self, state: &mut LsState, ctx: &mut Ctx) -> (r: Result<
        (),
        (),
    >) where A: NotificationAction<Ctx>
        ensures
            A::handles(self.params, old(state)@, final(state)@, r),
    {
        let mut action = A::new();
        action.handle(self.params, state, ctx)
    }

    /// This notification as a JSON value.
    pub fn to_json(&self) -> (r: JsonValue)
        ensures
            r@ == notification_json::<A>(self.params),
    {
        let mut members: Vec<Member> = Vec::new();
        members.push(member("jsonrpc", JsonValue::String("2.0".to_owned())));
        members.push(member("method", JsonValue::String(A::method().to_owned())));
        members.push(member("params", A::write_params(&self.params)));
        proof {
            lemma_object_view(members);
            assert(members_view(members@) =~= notification_json::<A>(self.params)->Object_0);
        }
        JsonValue::Object(members)
    }

    /// This notification as JSON text.
    pub fn to_string(&self) -> (text: String)
        ensures
            text@ == rendered(notification_json::<A>(self.params)),
    {
        render(&self.to_json())
    }
}

} // verus!
