//! What holds of the server as a whole, stated over the functions that say
//! what its parts do.

use crate::json::Json;
use crate::jsonrpc::{Error, IdView};
use crate::server::action::{Action, ReplyView};
use crate::server::lifecycle::{ExitNotification, InitializeRequest, ShutdownRequest};
use crate::server::message::RawMessageView;
use crate::server::registry::{Method, Role};
use crate::server::service::{HandledView, NextView, ServerStateChange};
use crate::server::state::LsStateView;
use vstd::prelude::*;

verus! {

/// The actions that the service serves itself stand in the registry under
/// their own method names, each in its role.
pub proof fn lemma_own_actions_registered()
    ensures
        crate::server::registry::method_named(ShutdownRequest::method_of()) == Some(
            Method::Shutdown,
        ),
        crate::server::registry::method_named(InitializeRequest::method_of()) == Some(
            Method::Initialize,
        ),
        crate::server::registry::method_named(ExitNotification::method_of()) == Some(Method::Exit),
        Method::Shutdown.role_of() == Role::Request,
        Method::Initialize.role_of() == Role::Request,
        Method::Exit.role_of() == Role::Notification,
{
    crate::server::registry::lemma_lookup("shutdown"@, Method::Shutdown);
    crate::server::registry::lemma_lookup("initialize"@, Method::Initialize);
    crate::server::registry::lemma_lookup("exit"@, Method::Exit);
}

/// A JSON value without a `method` member holds no message, and that is no
/// error.
pub proof fn lemma_no_method_no_message(value: Json)
    requires
        value.member("method"@) is None,
    ensures
        crate::server::message::envelope_of(value) == Ok::<Option<RawMessageView>, Error>(None),
{
}

/// A text that holds a JSON value without a `method` member holds no
/// message, and that is no error.
pub proof fn lemma_no_method_no_message_in_text(text: Seq<char>, value: Json)
    requires
        crate::json::parsed(text) == Some(value),
        value.member("method"@) is None,
    ensures
        crate::server::message::message_of(text) == Ok::<Option<RawMessageView>, Error>(None),
{
}

/// A JSON value with a `method` member whose `params` member is a bare
/// string, number or boolean is turned down as an invalid request.
pub proof fn lemma_bare_params_refused(value: Json)
    requires
        value.member("method"@) is Some,
        value.member("params"@) matches Some(params) && (params is String || params is Number
            || params is Bool),
    ensures
        crate::server::message::envelope_of(value) == Err::<Option<RawMessageView>, Error>(
            Error::InvalidRequest,
        ),
{
}

/// A text that is not JSON is turned down with a parse error, reported under
/// the id `null`, and the server stops.
pub proof fn lemma_not_json_stops(state: LsStateView, text: Seq<char>)
    requires
        state.exit_code is None,
        crate::json::parsed(text) is None,
    ensures
        crate::server::service::handle_of(state, Some(text)) == (
            state,
            HandledView::failed(IdView::Null, Error::ParseError),
        ),
{
}

/// After a shutdown request is served the flag is set, and an exit
/// notification that follows stops the process with code 0.
pub proof fn lemma_shutdown_then_exit(
    state: LsStateView,
    shutdown: RawMessageView,
    exit: RawMessageView,
)
    requires
        shutdown.method == "shutdown"@,
        crate::server::message::request_id(shutdown.id) is Some,
        exit.method == "exit"@,
    ensures
        ({
            let (after_shutdown, _) = crate::server::service::serve_of(state, Ok(Some(shutdown)));
            let (after_exit, handled) = crate::server::service::serve_of(
                after_shutdown,
                Ok(Some(exit)),
            );
            &&& after_shutdown.shutdown_requested
            &&& after_exit.exit_code == Some(0i32)
            &&& handled.next == NextView::Exit(0)
            &&& handled.change == ServerStateChange::Break
            &&& handled.reply is None
        }),
{
    crate::server::registry::lemma_lookup("shutdown"@, Method::Shutdown);
    crate::server::registry::lemma_lookup("exit"@, Method::Exit);
}

/// A shutdown request that is served is answered under its own id, with an
/// empty object, and the server goes on.
pub proof fn lemma_shutdown_acknowledged(state: LsStateView, shutdown: RawMessageView)
    requires
        !state.shutdown_requested,
        shutdown.method == "shutdown"@,
        crate::server::message::request_id(shutdown.id) is Some,
    ensures
        ({
            let (after, handled) = crate::server::service::serve_of(state, Ok(Some(shutdown)));
            &&& after == state.after_shutdown()
            &&& handled.change == ServerStateChange::Continue
            &&& crate::server::message::request_id(shutdown.id) matches Some(id)
                && handled.reply == Some(
                ReplyView::Success { id, result: Json::Object(Seq::empty()) },
            )
            &&& handled.next == NextView::Nothing
        }),
{
    crate::server::registry::lemma_lookup("shutdown"@, Method::Shutdown);
}

/// An exit notification that comes without a shutdown before it stops the
/// process with code 1.
pub proof fn lemma_exit_without_shutdown(state: LsStateView, exit: RawMessageView)
    requires
        !state.shutdown_requested,
        exit.method == "exit"@,
    ensures
        ({
            let (after, handled) = crate::server::service::serve_of(state, Ok(Some(exit)));
            &&& after.exit_code == Some(1i32)
            &&& handled.next == NextView::Exit(1)
            &&& handled.change == ServerStateChange::Break
            &&& handled.reply is None
        }),
{
    crate::server::registry::lemma_lookup("exit"@, Method::Exit);
}

/// While the flag is set, a message whose method is not `exit` changes
/// nothing: nothing is dispatched, nothing is sent, and the server goes on.
pub proof fn lemma_shut_down_ignores(state: LsStateView, msg: RawMessageView)
    requires
        state.shutdown_requested,
        msg.method != "exit"@,
    ensures
        crate::server::service::serve_of(state, Ok(Some(msg))) == (state, HandledView::ignored()),
{
}

/// The same, of the text that holds such a message.
pub proof fn lemma_shut_down_ignores_text(state: LsStateView, text: Seq<char>, msg: RawMessageView)
    requires
        state.shutdown_requested,
        state.exit_code is None,
        crate::server::message::message_of(text) == Ok::<Option<RawMessageView>, Error>(Some(msg)),
        msg.method != "exit"@,
    ensures
        crate::server::service::handle_of(state, Some(text)) == (state, HandledView::ignored()),
{
}

/// A message is handed out only to the method whose name it carries, and it
/// is handed out whole.
pub proof fn lemma_call_keeps_message(state: LsStateView, msg: RawMessageView)
    ensures
        crate::server::service::dispatch_of(state, msg).1 matches Ok(d) ==> (d.next matches NextView::Call {
            method,
            message,
        } ==> method.name_of() == msg.method && message == msg),
{
    match crate::server::registry::method_named(msg.method) {
        Some(m) => {
            crate::server::registry::lemma_lookup(msg.method, m);
        },
        None => {},
    }
}

/// A request is handed out only with an id under which it can be answered.
pub proof fn lemma_call_can_be_answered(state: LsStateView, msg: RawMessageView)
    ensures
        crate::server::service::dispatch_of(state, msg).1 matches Ok(d) ==> (d.next matches NextView::Call {
            method,
            ..
        } ==> method.role_of() == Role::Request
            ==> crate::server::message::request_id(msg.id) is Some),
{
}

/// A success goes out only under the number that the id of the request
/// gives, and only for a request: what is sent for a message answers that
/// message.
pub proof fn lemma_reply_keeps_id(state: LsStateView, msg: RawMessageView)
    ensures
        crate::server::service::dispatch_of(state, msg).1 matches Ok(d) ==> (d.reply matches Some(
            ReplyView::Success { id, .. },
        ) ==> msg.id matches Some(given) && given.numeric() == Some(id)),
{
}

/// A method that the registry does not know is passed over: nothing is
/// sent, nothing changes, and the server goes on.
pub proof fn lemma_unknown_method_ignored(state: LsStateView, msg: RawMessageView)
    requires
        !state.shutdown_requested,
        crate::server::registry::method_named(msg.method) is None,
    ensures
        crate::server::service::serve_of(state, Ok(Some(msg))) == (state, HandledView::ignored()),
{
}

/// The JSON value of a request holds the version `2.0`, the method of its
/// action, its id, and its parameters as the action writes them.
pub proof fn lemma_request_json<A: Action>(id: usize, params: A::Params)
    ensures
        ({
            let json = crate::server::message::request_json::<A>(id, params);
            &&& json.member("jsonrpc"@) == Some(Json::String("2.0"@))
            &&& json.member("id"@) == Some(Json::Number(crate::jsonrpc::numeral(id as nat)))
            &&& json.member("method"@) == Some(Json::String(A::method_of()))
            &&& json.member("params"@) == Some(A::params_json(params))
        }),
{
    reveal_strlit("jsonrpc");
    reveal_strlit("id");
    reveal_strlit("method");
    reveal_strlit("params");
    let members = crate::server::message::request_json::<A>(id, params)->Object_0;
    crate::json::lemma_first_from(members, "jsonrpc"@, 0);
    crate::json::lemma_first_from(members, "id"@, 0);
    crate::json::lemma_first_from(members, "method"@, 0);
    crate::json::lemma_first_from(members, "params"@, 0);
    assert("jsonrpc"@.len() == 7 && "id"@.len() == 2 && "method"@.len() == 6 && "params"@.len()
        == 6);
    assert("method"@[0] != "params"@[0]);
}

/// The JSON value of a notification holds the version `2.0`, the method of
/// its action, and its parameters as the action writes them; it holds no
/// id.
pub proof fn lemma_notification_json<A: Action>(params: A::Params)
    ensures
        ({
            let json = crate::server::message::notification_json::<A>(params);
            &&& json.member("jsonrpc"@) == Some(Json::String("2.0"@))
            &&& json.member("id"@) is None
            &&& json.member("method"@) == Some(Json::String(A::method_of()))
            &&& json.member("params"@) == Some(A::params_json(params))
        }),
{
    reveal_strlit("jsonrpc");
    reveal_strlit("id");
    reveal_strlit("method");
    reveal_strlit("params");
    let members = crate::server::message::notification_json::<A>(params)->Object_0;
    crate::json::lemma_first_from(members, "jsonrpc"@, 0);
    crate::json::lemma_first_from(members, "id"@, 0);
    crate::json::lemma_first_from(members, "method"@, 0);
    crate::json::lemma_first_from(members, "params"@, 0);
    assert("jsonrpc"@.len() == 7 && "id"@.len() == 2 && "method"@.len() == 6 && "params"@.len()
        == 6);
    assert("method"@[0] != "params"@[0]);
}

/// A request that is written as JSON is read back as a message with the
/// method of its action, its id and its parameters; and where the action
/// takes its own parameters back, it makes a request of the message, under
/// the same id. This holds where the parameters are written as an object,
/// an array or `null`: other parameters no message can carry.
pub proof fn lemma_request_round_trip<A: Action>(id: usize, params: A::Params)
    requires
        A::params_json(params) is Object || A::params_json(params) is Array || A::params_json(
            params,
        ) is Null,
    ensures
        ({
            let json = crate::server::message::request_json::<A>(id, params);
            let msg = RawMessageView {
                method: A::method_of(),
                id: Some(IdView::Num(id as u64)),
                params: A::params_json(params),
            };
            &&& crate::server::message::envelope_of(json) == Ok::<Option<RawMessageView>, Error>(
                Some(msg),
            )
            &&& crate::server::message::request_id(msg.id) == Some(id)
            &&& A::takes(A::params_json(params)) ==> crate::server::message::makes_request::<A>(
                msg,
            )
        }),
{
    lemma_request_json::<A>(id, params);
    crate::jsonrpc::lemma_numeral_read_back(id as nat);
}

/// A notification that is written as JSON is read back as a message with the
/// method of its action, no id, and its parameters. This holds where the
/// parameters are written as an object, an array or `null`.
pub proof fn lemma_notification_round_trip<A: Action>(params: A::Params)
    requires
        A::params_json(params) is Object || A::params_json(params) is Array || A::params_json(
            params,
        ) is Null,
    ensures
        crate::server::message::envelope_of(
            crate::server::message::notification_json::<A>(params),
        ) == Ok::<Option<RawMessageView>, Error>(
            Some(
                RawMessageView { method: A::method_of(), id: None, params: A::params_json(params) },
            ),
        ),
{
    lemma_notification_json::<A>(params);
}

/// A run handles the inputs in order and stops at the first at which the
/// service says to stop: every result but the last says to continue, and
/// where inputs are left over the last result says to stop.
pub proof fn lemma_run_stops_at_break(
    state: LsStateView,
    inputs: Seq<Option<Seq<char>>>,
    from: int,
)
    requires
        0 <= from <= inputs.len(),
    ensures
        ({
            let results = crate::server::service::run_of(state, inputs, from).1;
            &&& results.len() <= inputs.len() - from
            &&& forall|i: int|
                0 <= i < results.len() - 1 ==> (#[trigger] results[i]).change
                    == ServerStateChange::Continue
            &&& results.len() < inputs.len() - from ==> results.len() > 0
                && results.last().change == ServerStateChange::Break
        }),
    decreases inputs.len() - from,
{
    if from < inputs.len() {
        let (after, handled) = crate::server::service::handle_of(state, inputs[from]);
        if handled.change != ServerStateChange::Break {
            lemma_run_stops_at_break(after, inputs, from + 1);
            let rest = crate::server::service::run_of(after, inputs, from + 1).1;
            let results = crate::server::service::run_of(state, inputs, from).1;
            assert(results == seq![handled] + rest);
            assert forall|i: int| 0 <= i < results.len() - 1 implies (#[trigger] results[i]).change
                == ServerStateChange::Continue by {
                if i > 0 {
                    assert(results[i] == rest[i - 1]);
                }
            }
            if rest.len() > 0 {
                assert(results.last() == rest.last());
            }
        }
    }
}

} // verus!
