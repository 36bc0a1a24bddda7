use rls::json::JsonValue;
use rls::lsp_data::InitializeParams;
use rls::jsonrpc::Id;
use rls::lsp_data::InitializationOptions;
use rls::server::lifecycle::server_capabilities;
use rls::server::{
    get_root_path, try_get_root_path, Ack, Action, ExitNotification, InitializeRequest,
    InitializeResponse, Lifecycle, LsState, NoParams, NoResponse, Notification,
    NotificationAction, RawMessage, Reply, Request, RequestAction, Response, ShutdownRequest,
};
use std::marker::PhantomData;
use std::path::PathBuf;
use url::Url;

/// A notification served outside the library.
#[derive(Debug, PartialEq)]
struct Initialized;

impl Action for Initialized {
    type Params = NoParams;

    fn method() -> &'static str {
        "initialized"
    }

    fn read_params(_value: &JsonValue) -> Option<NoParams> {
        Some(NoParams)
    }

    fn write_params(_params: &NoParams) -> JsonValue {
        JsonValue::Null
    }

    fn new() -> Self {
        Initialized
    }
}

impl NotificationAction<()> for Initialized {
    fn handle(&mut self, _params: NoParams, _state: &mut LsState, _ctx: &mut ()) -> Result<(), ()> {
        Ok(())
    }
}

fn get_default_params() -> InitializeParams {
    InitializeParams {
        process_id: None,
        root_path: None,
        root_uri: None,
        initialization_options: None,
    }
}

fn make_platform_path(path: &'static str) -> PathBuf {
    PathBuf::from(format!("/{}", path))
}

#[test]
fn test_use_root_uri() {
    let mut params = get_default_params();

    let root_path = make_platform_path("path/a");
    let root_uri = make_platform_path("path/b");
    params.root_path = Some(root_path.to_str().unwrap().to_owned());
    params.root_uri = Some(Url::from_directory_path(&root_uri).unwrap().into_string());

    assert_eq!(get_root_path(&params), root_uri);
}

#[test]
fn test_use_root_path() {
    let mut params = get_default_params();

    let root_path = make_platform_path("path/a");
    params.root_path = Some(root_path.to_str().unwrap().to_owned());
    params.root_uri = None;

    assert_eq!(get_root_path(&params), root_path);
}

#[test]
fn test_parse_as_notification() {
    let raw = RawMessage {
        method: "initialize".to_owned(),
        id: None,
        params: JsonValue::Null,
    };
    let notification = raw.parse_as_notification::<Initialized>();

    assert_eq!(notification, Ok(Notification::<Initialized> {
        params: NoParams {},
        _action: PhantomData,
    }));
}

#[test]
fn root_uri_that_is_no_file_names_no_root() {
    let mut params = get_default_params();
    params.root_path = Some("/path/a".to_owned());
    params.root_uri = Some("http://example.net/path/b".to_owned());
    assert_eq!(try_get_root_path(&params), None);
    params.root_uri = Some("file://far/path/b".to_owned());
    assert_eq!(try_get_root_path(&params), None);
}

#[test]
fn missing_root_names_no_root() {
    assert_eq!(try_get_root_path(&get_default_params()), None);
}

#[test]
fn root_is_found_where_there_is_one() {
    let mut params = get_default_params();
    params.root_path = Some("/path/a".to_owned());
    assert_eq!(try_get_root_path(&params), Some(PathBuf::from("/path/a")));
    params.root_uri = Some("file:///path/b".to_owned());
    assert_eq!(try_get_root_path(&params), Some(PathBuf::from("/path/b")));
}

#[test]
fn actions_carry_their_method_names() {
    assert_eq!(ShutdownRequest::method(), "shutdown");
    assert_eq!(ExitNotification::method(), "exit");
    assert_eq!(InitializeRequest::method(), "initialize");
}

#[test]
fn no_params_are_read_from_anything() {
    assert_eq!(ShutdownRequest::read_params(&JsonValue::Null), Some(NoParams));
    assert_eq!(ShutdownRequest::read_params(&JsonValue::Bool(true)), Some(NoParams));
    assert_eq!(ExitNotification::read_params(&JsonValue::Array(vec![])), Some(NoParams));
    assert_eq!(ShutdownRequest::write_params(&NoParams), JsonValue::Null);
    assert_eq!(ExitNotification::write_params(&NoParams), JsonValue::Null);
}

#[test]
fn shutdown_sets_the_flag_and_acknowledges() {
    let mut state = LsState::new();
    let mut action = <ShutdownRequest as Action>::new();
    assert_eq!(action.handle(1, NoParams, &mut state, &mut ()), Ok(Ack));
    assert!(state.is_shut_down());
    assert_eq!(state.exit_code(), None);
    assert_eq!(state.lifecycle(), Lifecycle::ShuttingDown);
}

#[test]
fn exit_fixes_the_exit_code() {
    let mut state = LsState::new();
    let mut action = <ExitNotification as Action>::new();
    assert_eq!(action.handle(NoParams, &mut state, &mut ()), Ok(()));
    assert_eq!(state.exit_code(), Some(1));

    let mut state = LsState::new();
    state.request_shutdown();
    assert_eq!(action.handle(NoParams, &mut state, &mut ()), Ok(()));
    assert_eq!(state.exit_code(), Some(0));
    assert_eq!(state.lifecycle(), Lifecycle::Terminated(0));
}

#[test]
fn state_records_shutdown_and_exit() {
    let mut state = LsState::new();
    assert_eq!(state.lifecycle(), Lifecycle::Active);
    assert_eq!(state.request_exit(), 1);
    let mut state = LsState::new();
    state.request_shutdown();
    assert_eq!(state.request_exit(), 0);
    assert!(state.is_shut_down());
}

#[test]
fn initialize_answers_with_capabilities_root_and_options() {
    let mut state = LsState::new();
    let mut action = <InitializeRequest as Action>::new();
    let mut params = get_default_params();
    params.root_path = Some("/path/a".to_owned());
    params.initialization_options = rls::json::parse("{\"omitInitBuild\":true}");
    let response = action.handle(1, params, &mut state, &mut ()).unwrap();
    assert_eq!(
        response,
        InitializeResponse {
            result: rls::lsp_data::InitializeResult { capabilities: server_capabilities() },
            root_path: Some(PathBuf::from("/path/a")),
            options: InitializationOptions { omit_init_build: true },
        }
    );
    assert_eq!(state.lifecycle(), Lifecycle::Active);
    assert_eq!(response.result(), Some(response.result.to_json()));
}

#[test]
fn initialize_falls_back_to_the_default_options() {
    let mut state = LsState::new();
    let mut action = <InitializeRequest as Action>::new();
    let mut params = get_default_params();
    params.initialization_options = Some(JsonValue::Bool(true));
    let response = action.handle(1, params, &mut state, &mut ()).unwrap();
    assert_eq!(response.options, InitializationOptions { omit_init_build: false });
    assert_eq!(response.root_path, None);
}

#[test]
fn advertised_capabilities_are_the_server_s() {
    let c = server_capabilities();
    assert_eq!(c.hover_provider, Some(true));
    assert_eq!(c.completion_provider.as_ref().unwrap().resolve_provider, Some(true));
    assert_eq!(c.completion_provider.as_ref().unwrap().trigger_characters, vec![".", ":"]);
    assert_eq!(c.execute_command_provider.as_ref().unwrap().commands, vec!["rls.applySuggestion"]);
    assert_eq!(c.document_range_formatting_provider, Some(false));
    assert_eq!(c.code_lens_provider, None);
    assert_eq!(c.document_on_type_formatting_provider, None);
    assert_eq!(c.signature_help_provider, None);
}

#[test]
fn responses_give_their_results() {
    assert_eq!(Ack.result(), Some(JsonValue::Object(vec![])));
    assert_eq!(NoResponse.result(), None);
}

#[test]
fn request_dispatch_runs_the_action_and_answers_under_the_id() {
    let mut state = LsState::new();
    let request: Request<ShutdownRequest> = Request { id: 11, params: NoParams, _action: PhantomData };
    let (response, reply) = request.dispatch(&mut state, &mut ()).unwrap();
    assert_eq!(response, Ack);
    assert_eq!(reply, Some(Reply::Success { id: 11, result: JsonValue::Object(vec![]) }));
    assert!(state.is_shut_down());
}

#[test]
fn notification_dispatch_runs_the_action() {
    let mut state = LsState::new();
    let notification: Notification<ExitNotification> =
        Notification { params: NoParams, _action: PhantomData };
    assert_eq!(notification.dispatch(&mut state, &mut ()), Ok(()));
    assert_eq!(state.exit_code(), Some(1));
    let other: Notification<Initialized> = Notification { params: NoParams, _action: PhantomData };
    assert_eq!(other.dispatch(&mut state, &mut ()), Ok(()));
}

#[test]
fn outside_notification_is_written_with_its_method() {
    let notification: Notification<Initialized> =
        Notification { params: NoParams, _action: PhantomData };
    assert_eq!(
        notification.to_string(),
        "{\"jsonrpc\":\"2.0\",\"method\":\"initialized\",\"params\":null}"
    );
    let raw = RawMessage { method: "initialized".to_owned(), id: Some(Id::Num(1)), params: JsonValue::Null };
    assert!(raw.parse_as_notification::<Initialized>().is_ok());
}

/// A request served outside the library, with parameters and a context of
/// its own: it answers with the text that it was sent, and counts its calls.
#[derive(Debug, PartialEq)]
struct Echo;

#[derive(Debug, PartialEq)]
struct Said(String);

impl Response for Said {
    fn result(&self) -> Option<JsonValue> {
        Some(JsonValue::String(self.0.clone()))
    }
}

impl Action for Echo {
    type Params = Vec<String>;

    fn method() -> &'static str {
        "test/echo"
    }

    fn read_params(value: &JsonValue) -> Option<Vec<String>> {
        match value {
            JsonValue::Array(items) => items
                .iter()
                .map(|item| match item {
                    JsonValue::String(s) => Some(s.clone()),
                    _ => None,
                })
                .collect(),
            _ => None,
        }
    }

    fn write_params(params: &Vec<String>) -> JsonValue {
        rls::json::strings(params)
    }

    fn new() -> Self {
        Echo
    }
}

impl RequestAction<usize> for Echo {
    type Response = Said;

    fn handle(
        &mut self,
        _id: usize,
        params: Vec<String>,
        _state: &mut LsState,
        calls: &mut usize,
    ) -> Result<Said, ()> {
        *calls += 1;
        if params.is_empty() {
            Err(())
        } else {
            Ok(Said(params.join(" ")))
        }
    }
}

#[test]
fn outside_request_is_bound_run_and_answered() {
    let raw = RawMessage {
        method: "test/echo".to_owned(),
        id: Some(Id::Str("12".to_owned())),
        params: rls::json::parse("[\"a\", \"b\"]").unwrap(),
    };
    let request = raw.parse_as_request::<Echo>().unwrap();
    assert_eq!(request.id, 12);
    assert_eq!(request.params, vec!["a".to_owned(), "b".to_owned()]);
    assert_eq!(
        request.to_string(),
        "{\"id\":12,\"jsonrpc\":\"2.0\",\"method\":\"test/echo\",\"params\":[\"a\",\"b\"]}"
    );
    let mut state = LsState::new();
    let mut calls = 0;
    let (response, reply) = request.dispatch(&mut state, &mut calls).unwrap();
    assert_eq!(response, Said("a b".to_owned()));
    assert_eq!(reply, Some(Reply::Success { id: 12, result: JsonValue::String("a b".to_owned()) }));
    assert_eq!(calls, 1);
    assert_eq!(state.lifecycle(), Lifecycle::Active);
}

#[test]
fn outside_request_that_fails_is_not_answered() {
    let request: Request<Echo> = Request { id: 1, params: vec![], _action: PhantomData };
    let mut state = LsState::new();
    let mut calls = 0;
    assert_eq!(request.dispatch(&mut state, &mut calls), Err(()));
    assert_eq!(calls, 1);
}

#[test]
fn outside_request_with_parameters_it_does_not_take_is_refused() {
    let raw = RawMessage {
        method: "test/echo".to_owned(),
        id: Some(Id::Num(1)),
        params: rls::json::parse("[1]").unwrap(),
    };
    assert_eq!(raw.parse_as_request::<Echo>(), Err(rls::jsonrpc::Error::InvalidRequest));
    let raw = RawMessage {
        method: "test/echo".to_owned(),
        id: None,
        params: rls::json::parse("[\"a\"]").unwrap(),
    };
    assert_eq!(raw.parse_as_request::<Echo>(), Err(rls::jsonrpc::Error::InvalidRequest));
}
