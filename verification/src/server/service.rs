//! The service: what the server does with one message.
//!
//! The service reads nothing and writes nothing. Whoever drives it hands it
//! what was read, and gets back what to send, what to do next, and whether
//! to go on.

use crate::json::str_eq;
use crate::jsonrpc::{Error, Id, IdView};
use crate::lsp_data::{InitializationOptions, InitializeParamsView};
use crate::server::action::{Action, Reply, ReplyView};
use crate::server::lifecycle::{ExitNotification, InitializeRequest, ShutdownRequest};
use crate::server::message::{request_id, RawMessage, RawMessageView};
use crate::server::registry::{lookup, Method, Role};
use crate::server::state::{LsState, LsStateView};
use std::path::PathBuf;
use vstd::prelude::*;

verus! {

/// How should the server proceed?
#[derive(Eq, PartialEq, Debug, Clone, Copy, Structural)]
pub enum ServerStateChange {
    /// Continue serving responses to requests and sending notifications to
    /// the client.
    Continue,
    /// Stop the server.
    Break,
}

/// What is left to do for a message once the service is done with it.
#[derive(Debug, PartialEq)]
pub enum Next {
    /// Nothing.
    Nothing,
    /// Stop the process with this exit code.
    Exit(i32),
    /// Start work on the workspace: `initialize` was served.
    Init { root_path: Option<PathBuf>, options: InitializationOptions },
    /// Run the action that serves `method` on `message`: the method is known,
    /// and served by an action that is not the service's own. What running
    /// it came to is handed to `LsService::called`, which says how the
    /// message ends.
    Call { method: Method, message: RawMessage },
}

/// What a [`Next`] says.
pub enum NextView {
    Nothing,
    Exit(i32),
    Init { root_path: Option<PathBuf>, options: InitializationOptions },
    Call { method: Method, message: RawMessageView },
}

impl View for Next {
    type V = NextView;

    open spec fn view(&self) -> NextView {
        match self {
            Next::Nothing => NextView::Nothing,
            Next::Exit(code) => NextView::Exit(*code),
            Next::Init { root_path, options } => NextView::Init {
                root_path: *root_path,
                options: *options,
            },
            Next::Call { method, message } => NextView::Call {
                method: *method,
                message: message@,
            },
        }
    }
}

/// What a dispatch comes to: what to send, and what is left to do.
#[derive(Debug, PartialEq)]
pub struct Dispatched {
    pub reply: Option<Reply>,
    pub next: Next,
}

/// What a [`Dispatched`] says.
pub struct DispatchedView {
    pub reply: Option<ReplyView>,
    pub next: NextView,
}

impl View for Dispatched {
    type V = DispatchedView;

    open spec fn view(&self) -> DispatchedView {
        DispatchedView { reply: crate::server::message::reply_view(self.reply), next: self.next@ }
    }
}

/// What handling one message comes to: what to send, what is left to do, and
/// whether to go on.
#[derive(Debug, PartialEq)]
pub struct Handled {
    pub change: ServerStateChange,
    pub reply: Option<Reply>,
    pub next: Next,
}

/// What a [`Handled`] says.
pub struct HandledView {
    pub change: ServerStateChange,
    pub reply: Option<ReplyView>,
    pub next: NextView,
}

impl View for Handled {
    type V = HandledView;

    open spec fn view(&self) -> HandledView {
        HandledView {
            change: self.change,
            reply: crate::server::message::reply_view(self.reply),
            next: self.next@,
        }
    }
}

impl HandledView {
    /// Go on, with nothing sent and nothing left to do.
    pub open spec fn ignored() -> HandledView {
        HandledView { change: ServerStateChange::Continue, reply: None, next: NextView::Nothing }
    }

    /// Stop, after telling the client of `error` under `id`.
    pub open spec fn failed(id: IdView, error: Error) -> HandledView {
        HandledView {
            change: ServerStateChange::Break,
            reply: Some(ReplyView::Failure { id, error }),
            next: NextView::Nothing,
        }
    }
}

/// The result of a dispatch, as a view.
pub open spec fn dispatch_view(r: Result<Dispatched, Error>) -> Result<DispatchedView, Error> {
    match r {
        Ok(d) => Ok(d@),
        Err(e) => Err(e),
    }
}

/// What dispatching a message in a state comes to: the state after it, and
/// what to send and to do, or the error with which the message is turned
/// down.
///
/// A method that the registry does not know is passed over. `exit`,
/// `shutdown` and `initialize` are served on the spot. Any other method is
/// handed out, to be run by the action that serves it; a request only with
/// an id under which it can be answered.
pub open spec fn dispatch_of(state: LsStateView, msg: RawMessageView) -> (
    LsStateView,
    Result<DispatchedView, Error>,
) {
    match crate::server::registry::method_named(msg.method) {
        None => (state, Ok(DispatchedView { reply: None, next: NextView::Nothing })),
        Some(Method::Exit) => (
            state.after_exit(),
            Ok(DispatchedView { reply: None, next: NextView::Exit(state.code_on_exit()) }),
        ),
        Some(Method::Shutdown) => match request_id(msg.id) {
            Some(id) => (
                state.after_shutdown(),
                Ok(
                    DispatchedView {
                        reply: Some(
                            ReplyView::Success {
                                id,
                                result: crate::json::Json::Object(Seq::empty()),
                            },
                        ),
                        next: NextView::Nothing,
                    },
                ),
            ),
            None => (state, Err(Error::InvalidRequest)),
        },
        Some(Method::Initialize) => match (
            request_id(msg.id),
            InitializeParamsView::of_json(msg.params),
        ) {
            (Some(id), Some(params)) => (
                state,
                Ok(
                    DispatchedView {
                        reply: Some(
                            ReplyView::Success {
                                id,
                                result: crate::server::lifecycle::initialize_result_json(),
                            },
                        ),
                        next: NextView::Init {
                            root_path: crate::server::lifecycle::root_path_of(params),
                            options: InitializationOptions::chosen(params.initialization_options),
                        },
                    },
                ),
            ),
            _ => (state, Err(Error::InvalidRequest)),
        },
        Some(method) => if method.role_of() == Role::Request && request_id(msg.id) is None {
            (state, Err(Error::InvalidRequest))
        } else {
            (
                state,
                Ok(DispatchedView { reply: None, next: NextView::Call { method, message: msg } }),
            )
        },
    }
}

/// What handling an envelope in a state comes to.
///
/// An error is reported under the id `null`, and stops the server. What is
/// no message is passed over. After a shutdown was asked for, every message
/// but `exit` is passed over. Anything else is dispatched; where that fails,
/// the error is reported under the id of the message, and stops the server.
/// After `exit`, the server stops.
pub open spec fn serve_of(state: LsStateView, envelope: Result<Option<RawMessageView>, Error>)
    -> (LsStateView, HandledView) {
    match envelope {
        Err(e) => (state, HandledView::failed(IdView::Null, e)),
        Ok(None) => (state, HandledView::ignored()),
        Ok(Some(msg)) => if state.shutdown_requested && msg.method != "exit"@ {
            (state, HandledView::ignored())
        } else {
            match dispatch_of(state, msg) {
                (after, Ok(d)) => (
                    after,
                    HandledView {
                        change: if d.next is Exit {
                            ServerStateChange::Break
                        } else {
                            ServerStateChange::Continue
                        },
                        reply: d.reply,
                        next: d.next,
                    },
                ),
                (after, Err(e)) => (after, HandledView::failed(IdView::in_failure(msg.id), e)),
            }
        },
    }
}

/// What handling what was read in a state comes to. Where nothing could be
/// read, a parse error is reported under the id `null`, and the server
/// stops. Once an exit was asked for, nothing is handled any more.
pub open spec fn handle_of(state: LsStateView, input: Option<Seq<char>>) -> (
    LsStateView,
    HandledView,
) {
    match state.exit_code {
        Some(code) => (
            state,
            HandledView {
                change: ServerStateChange::Break,
                reply: None,
                next: NextView::Exit(code),
            },
        ),
        None => match input {
            None => (state, HandledView::failed(IdView::Null, Error::ParseError)),
            Some(text) => serve_of(state, crate::server::message::message_of(text)),
        },
    }
}

/// What running the service comes to on the inputs from place `from` on,
/// each of them what one read gave: every input is handled in turn while the
/// service says to continue, and the one at which it says to stop is the
/// last.
pub open spec fn run_of(state: LsStateView, inputs: Seq<Option<Seq<char>>>, from: int) -> (
    LsStateView,
    Seq<HandledView>,
)
    decreases inputs.len() - from,
{
    if from < 0 || from >= inputs.len() {
        (state, Seq::empty())
    } else {
        let (after, handled) = handle_of(state, inputs[from]);
        if handled.change == ServerStateChange::Break {
            (after, seq![handled])
        } else {
            let (last, rest) = run_of(after, inputs, from + 1);
            (last, seq![handled] + rest)
        }
    }
}

/// What a sequence of inputs says.
pub open spec fn inputs_view(inputs: Seq<Option<String>>) -> Seq<Option<Seq<char>>> {
    Seq::new(
        inputs.len(),
        |i: int|
            match inputs[i] {
                Some(text) => Some(text@),
                None => None,
            },
    )
}

/// What a sequence of results says.
pub open spec fn handled_view(handled: Seq<Handled>) -> Seq<HandledView> {
    Seq::new(handled.len(), |i: int| handled[i]@)
}

/// A service implementing a language server.
#[derive(Debug)]
pub struct LsService {
    /// The public shared state for this language server.
    pub state: LsState,
}

impl LsService {
    /// Construct a new language server service.
    pub fn new() -> (service: LsService)
        ensures
            service.state@ == (LsStateView { shutdown_requested: false, exit_code: None }),
    {
        LsService { state: LsState::new() }
    }

    /// Reads the envelope of a message.
    pub fn parse_message(&mut self, msg: &str) -> (r: Result<Option<RawMessage>, Error>)
        ensures
            crate::server::message::envelope_view(r) == crate::server::message::message_of(msg@),
            final(self).state@ == old(self).state@,
    {
        RawMessage::parse(msg)
    }

    /// Dispatches a message to the action that serves its method.
    pub fn dispatch_message(&mut self, msg: RawMessage) -> (r: Result<Dispatched, Error>)
        ensures
            (final(self).state@, dispatch_view(r)) == dispatch_of(old(self).state@, msg@),
    {
        let method = match lookup(msg.method.as_str()) {
            Some(method) => method,
            None => { return Ok(Dispatched { reply: None, next: Next::Nothing }); },
        };
        let mut ctx = ();
        match method {
            Method::Exit => {
                let notification = match msg.parse_as_notification::<ExitNotification>() {
                    Ok(notification) => notification,
                    Err(e) => { return Err(e); },
                };
                let code = self.state.exit_code_on_exit();
                let _ = notification.dispatch(&mut self.state, &mut ctx);
                Ok(Dispatched { reply: None, next: Next::Exit(code) })
            },
            Method::Shutdown => {
                let request = match msg.parse_as_request::<ShutdownRequest>() {
                    Ok(request) => request,
                    Err(e) => { return Err(e); },
                };
                match request.dispatch(&mut self.state, &mut ctx) {
                    Ok((_, reply)) => Ok(Dispatched { reply, next: Next::Nothing }),
                    Err(_) => Ok(Dispatched { reply: None, next: Next::Nothing }),
                }
            },
            Method::Initialize => {
                let request = match msg.parse_as_request::<InitializeRequest>() {
                    Ok(request) => request,
                    Err(e) => { return Err(e); },
                };
                match request.dispatch(&mut self.state, &mut ctx) {
                    Ok((response, reply)) => Ok(
                        Dispatched {
                            reply,
                            next: Next::Init {
                                root_path: response.root_path,
                                options: response.options,
                            },
                        },
                    ),
                    Err(_) => Ok(Dispatched { reply: None, next: Next::Nothing }),
                }
            },
            _ => {
                let answerable = match &msg.id {
                    Some(id) => id.numeric().is_some(),
                    None => false,
                };
                match method.role() {
                    Role::Request if !answerable => Err(Error::InvalidRequest),
                    _ => Ok(
                        Dispatched { reply: None, next: Next::Call { method, message: msg } },
                    ),
                }
            },
        }
    }

    /// Handles an envelope: what reading a message came to.
    pub fn serve(&mut self, envelope: Result<Option<RawMessage>, Error>) -> (r: Handled)
        ensures
            (final(self).state@, r@) == serve_of(
                old(self).state@,
                crate::server::message::envelope_view(envelope),
            ),
    {
        let raw_message = match envelope {
            Ok(Some(raw_message)) => raw_message,
            Ok(None) => { return LsService::ignored(); },
            Err(e) => { return LsService::failed(&None, e); },
        };
        // If we're in shutdown mode, ignore any messages other than 'exit'.
        if self.state.is_shut_down() && !str_eq(
            raw_message.method.as_str(),
            ExitNotification::method(),
        ) {
            return LsService::ignored();
        }
        let id = Id::in_failure(&raw_message.id);
        match self.dispatch_message(raw_message) {
            Ok(dispatched) => {
                let change = match &dispatched.next {
                    Next::Exit(_) => ServerStateChange::Break,
                    _ => ServerStateChange::Continue,
                };
                Handled { change, reply: dispatched.reply, next: dispatched.next }
            },
            Err(e) => Handled {
                change: ServerStateChange::Break,
                reply: Some(Reply::Failure { id, error: e }),
                next: Next::Nothing,
            },
        }
    }

    /// Handles what was read from the client: the text of one message, or
    /// `None` where nothing could be read. Says how the service should
    /// proceed now that the message has been handled.
    pub fn handle_message(&mut self, input: Option<&str>) -> (r: Handled)
        ensures
            (final(self).state@, r@) == handle_of(old(self).state@, input_view(input)),
    {
        match self.state.exit_code() {
            Some(code) => {
                return Handled {
                    change: ServerStateChange::Break,
                    reply: None,
                    next: Next::Exit(code),
                };
            },
            None => {},
        }
        let msg_string = match input {
            Some(m) => m,
            None => { return LsService::failed(&None, Error::ParseError); },
        };
        let envelope = self.parse_message(msg_string);
        self.serve(envelope)
    }

    /// Runs the service on what was read beforehand, input by input, and
    /// stops behind the first input at which the service says to stop.
    /// Nothing is done for a message but what the service does itself: what
    /// is left to do stands in the results.
    pub fn run(&mut self, inputs: &Vec<Option<String>>) -> (r: Vec<Handled>)
        ensures
            (final(self).state@, handled_view(r@)) == run_of(
                old(self).state@,
                inputs_view(inputs@),
                0,
            ),
    {
        let mut results: Vec<Handled> = Vec::new();
        let mut i: usize = 0;
        let ghost all = inputs_view(inputs@);
        while i < inputs.len()
            invariant
                i <= inputs.len(),
                all == inputs_view(inputs@),
                run_of(old(self).state@, all, 0) == ({
                    let (last, rest) = run_of(self.state@, all, i as int);
                    (last, handled_view(results@) + rest)
                }),
            decreases inputs.len() - i,
        {
            let ghost before = self.state@;
            let ghost done = handled_view(results@);
            let handled = match &inputs[i] {
                Some(text) => self.handle_message(Some(text.as_str())),
                None => self.handle_message(None),
            };
            let stop = match handled.change {
                ServerStateChange::Break => true,
                ServerStateChange::Continue => false,
            };
            proof {
                assert((self.state@, handled@) == handle_of(before, all[i as int]));
                assert(handled_view(results@.push(handled)) =~= done + seq![handled@]);
                let (last, rest) = run_of(self.state@, all, i + 1);
                assert(done + (seq![handled@] + rest) =~= done + seq![handled@] + rest);
            }
            results.push(handled);
            if stop {
                proof {
                    assert(handled_view(results@) + Seq::<HandledView>::empty() =~= handled_view(
                        results@,
                    ));
                }
                return results;
            }
            i += 1;
        }
        proof {
            assert(handled_view(results@) + Seq::<HandledView>::empty() =~= handled_view(
                results@,
            ));
        }
        results
    }

    /// Ends the handling of a message that was handed out: `outcome` is what
    /// running the action on it came to.
    pub fn called(message: &RawMessage, outcome: Result<Option<Reply>, Error>) -> (r: Handled)
        ensures
            r@ == called_of(message@, outcome_view(outcome)),
    {
        match outcome {
            Ok(reply) => Handled { change: ServerStateChange::Continue, reply, next: Next::Nothing },
            Err(e) => LsService::failed(&message.id, e),
        }
    }

    /// Go on, with nothing sent and nothing left to do.
    pub fn ignored() -> (r: Handled)
        ensures
            r@ == HandledView::ignored(),
    {
        Handled { change: ServerStateChange::Continue, reply: None, next: Next::Nothing }
    }

    /// Stop, after telling the client of `error` under the id of the message
    /// that it is about; `null` where the message has no id that can be sent
    /// back. This is how a message ends that an action could not be bound
    /// to.
    pub fn failed(id: &Option<Id>, error: Error) -> (r: Handled)
        ensures
            r@ == HandledView::failed(IdView::in_failure(crate::jsonrpc::option_view(*id)), error),
    {
        Handled {
            change: ServerStateChange::Break,
            reply: Some(Reply::Failure { id: Id::in_failure(id), error }),
            next: Next::Nothing,
        }
    }
}

/// What a message comes to that was handed out, once the action that serves
/// its method has been run on it: the answer of the action goes out and the
/// server goes on; where the message could not be bound to the action, the
/// error is reported under the id of the message, and the server stops.
pub open spec fn called_of(msg: RawMessageView, outcome: Result<Option<ReplyView>, Error>)
    -> HandledView {
    match outcome {
        Ok(reply) => HandledView {
            change: ServerStateChange::Continue,
            reply,
            next: NextView::Nothing,
        },
        Err(e) => HandledView::failed(IdView::in_failure(msg.id), e),
    }
}

/// What running an action came to, as a view.
pub open spec fn outcome_view(outcome: Result<Option<Reply>, Error>) -> Result<
    Option<ReplyView>,
    Error,
> {
    match outcome {
        Ok(reply) => Ok(crate::server::message::reply_view(reply)),
        Err(e) => Err(e),
    }
}

/// The characters of what was read.
pub open spec fn input_view(input: Option<&str>) -> Option<Seq<char>> {
    match input {
        Some(text) => Some(text@),
        None => None,
    }
}

} // verus!
