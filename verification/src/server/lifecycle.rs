//! The three actions that the server serves itself: `initialize`, `shutdown`
//! and `exit`.

use crate::json::{str_eq, Entry, Json, JsonValue};
use crate::lsp_data::{
    CompletionOptions, ExecuteCommandOptions, InitializationOptions, InitializeParams,
    InitializeParamsView, InitializeResult, ServerCapabilities, TextDocumentSyncKind,
};
use crate::server::action::{Ack, Action, NoParams, NotificationAction, RequestAction, Response};
use crate::server::state::{LsState, LsStateView};
use crate::uri::{file_path, path_from, scheme};
use std::path::PathBuf;
use vstd::prelude::*;

verus! {

/// A request to shutdown the language server and perform clean up, but not to
/// exit the process. After receiving a response to this request, the client
/// will send an `exit` notification, at which point the process is to exit.
#[derive(Debug, PartialEq, Eq)]
pub struct ShutdownRequest;

/// Notification that it is time for the language server to exit its process.
#[derive(Debug, PartialEq, Eq)]
pub struct ExitNotification;

/// A request to initialize this server.
#[derive(Debug, PartialEq, Eq)]
pub struct InitializeRequest;

/// What `initialize` comes to: the result to send to the client, and what
/// the server is to be started with.
#[derive(Debug, PartialEq, Eq)]
pub struct InitializeResponse {
    /// The capabilities that the client is told of.
    pub result: InitializeResult,
    /// The root of the workspace; `None` where the client named none that
    /// can be used.
    pub root_path: Option<PathBuf>,
    /// The options that the client chose.
    pub options: InitializationOptions,
}

impl Action for ShutdownRequest {
    type Params = NoParams;

    open spec fn method_of() -> Seq<char> {
        "shutdown"@
    }

    fn method() -> (m: &'static str) {
        "shutdown"
    }

    /// Whatever the message holds, the parameters are none.
    open spec fn takes(value: Json) -> bool {
        true
    }

    open spec fn reads(value: Json, params: NoParams) -> bool {
        true
    }

    fn read_params(value: &JsonValue) -> (r: Option<NoParams>) {
        Some(NoParams)
    }

    open spec fn params_json(params: NoParams) -> Json {
        Json::Null
    }

    fn write_params(params: &NoParams) -> (r: JsonValue) {
        JsonValue::Null
    }

    fn new() -> Self {
        ShutdownRequest
    }
}

impl<Ctx> RequestAction<Ctx> for ShutdownRequest {
    type Response = Ack;

    /// The flag is set, nothing else changes, and the request is
    /// acknowledged.
    open spec fn handles(
        id: usize,
        params: NoParams,
        before: LsStateView,
        after: LsStateView,
        outcome: Result<Ack, ()>,
    ) -> bool {
        after == before.after_shutdown() && outcome is Ok
    }

    fn handle(&mut self, id: usize, params: NoParams, state: &mut LsState, ctx: &mut Ctx) -> (r:
        Result<Ack, ()>) {
        state.request_shutdown();
        Ok(Ack)
    }
}

impl Action for ExitNotification {
    type Params = NoParams;

    open spec fn method_of() -> Seq<char> {
        "exit"@
    }

    fn method() -> (m: &'static str) {
        "exit"
    }

    /// Whatever the message holds, the parameters are none.
    open spec fn takes(value: Json) -> bool {
        true
    }

    open spec fn reads(value: Json, params: NoParams) -> bool {
        true
    }

    fn read_params(value: &JsonValue) -> (r: Option<NoParams>) {
        Some(NoParams)
    }

    open spec fn params_json(params: NoParams) -> Json {
        Json::Null
    }

    fn write_params(params: &NoParams) -> (r: JsonValue) {
        JsonValue::Null
    }

    fn new() -> Self {
        ExitNotification
    }
}

impl<Ctx> NotificationAction<Ctx> for ExitNotification {
    /// The exit code is fixed: 0 where a shutdown was asked for before, 1
    /// where none was.
    open spec fn handles(
        params: NoParams,
        before: LsStateView,
        after: LsStateView,
        outcome: Result<(), ()>,
    ) -> bool {
        after == before.after_exit() && outcome is Ok
    }

    fn handle(&mut self, params: NoParams, state: &mut LsState, ctx: &mut Ctx) -> (r: Result<
        (),
        (),
    >) {
        let _ = state.request_exit();
        Ok(())
    }
}

/// The root of the workspace that the parameters of `initialize` name: the
/// file that `root_uri` names, which must be a `file` URI; without a
/// `root_uri`, the path that `root_path` writes. `None` where they name
/// none.
pub open spec fn root_path_of(params: InitializeParamsView) -> Option<PathBuf> {
    match params.root_uri {
        Some(uri) => if crate::uri::scheme_of(uri) == Some("file"@) {
            crate::uri::file_path_of(uri)
        } else {
            None
        },
        None => match params.root_path {
            Some(path) => Some(crate::uri::path_of(path)),
            None => None,
        },
    }
}

/// The root of the workspace that the parameters name. The parameters must
/// name one; for parameters that may name none there is
/// `try_get_root_path`.
pub fn get_root_path(params: &InitializeParams) -> (root: PathBuf)
    requires
        root_path_of(params@) is Some,
    ensures
        root_path_of(params@) == Some(root),
{
    match &params.root_uri {
        Some(uri) => file_path(uri.as_str()).unwrap(),
        None => path_from(params.root_path.as_ref().unwrap().as_str()),
    }
}

/// The root of the workspace that the parameters name, if they name one.
pub fn try_get_root_path(params: &InitializeParams) -> (root: Option<PathBuf>)
    ensures
        root == root_path_of(params@),
{
    let named = match &params.root_uri {
        Some(uri) => {
            let is_file = match scheme(uri.as_str()) {
                Some(s) => str_eq(s.as_str(), "file"),
                None => false,
            };
            is_file && file_path(uri.as_str()).is_some()
        },
        None => params.root_path.is_some(),
    };
    if named {
        Some(get_root_path(params))
    } else {
        None
    }
}

/// What the server says it can do.
pub open spec fn advertised(c: ServerCapabilities) -> bool {
    &&& c.text_document_sync == Some(TextDocumentSyncKind::Incremental)
    &&& c.hover_provider == Some(true)
    &&& c.completion_provider matches Some(completion)
    &&& completion.resolve_provider == Some(true)
    &&& completion.trigger_characters@.len() == 2
    &&& completion.trigger_characters@[0]@ == "."@
    &&& completion.trigger_characters@[1]@ == ":"@
    &&& c.definition_provider == Some(true)
    &&& c.references_provider == Some(true)
    &&& c.document_highlight_provider == Some(true)
    &&& c.document_symbol_provider == Some(true)
    &&& c.workspace_symbol_provider == Some(true)
    &&& c.code_action_provider == Some(true)
    &&& c.document_formatting_provider == Some(true)
    &&& c.execute_command_provider matches Some(commands)
    &&& commands.commands@.len() == 1
    &&& commands.commands@[0]@ == "rls.applySuggestion"@
    &&& c.rename_provider == Some(true)
    &&& c.document_range_formatting_provider == Some(false)
    &&& c.code_lens_provider is None
    &&& c.document_on_type_formatting_provider is None
    &&& c.signature_help_provider is None
}

/// The JSON members of the capabilities that the server advertises.
pub open spec fn advertised_entries() -> Seq<Entry> {
    seq![
        Entry { key: "textDocumentSync"@, value: Json::Number(crate::jsonrpc::numeral(2)) },
        Entry { key: "hoverProvider"@, value: Json::Bool(true) },
        Entry {
            key: "completionProvider"@,
            value: Json::Object(
                seq![
                    Entry { key: "resolveProvider"@, value: Json::Bool(true) },
                    Entry {
                        key: "triggerCharacters"@,
                        value: Json::Array(seq![Json::String("."@), Json::String(":"@)]),
                    },
                ],
            ),
        },
        Entry { key: "definitionProvider"@, value: Json::Bool(true) },
        Entry { key: "referencesProvider"@, value: Json::Bool(true) },
        Entry { key: "documentHighlightProvider"@, value: Json::Bool(true) },
        Entry { key: "documentSymbolProvider"@, value: Json::Bool(true) },
        Entry { key: "workspaceSymbolProvider"@, value: Json::Bool(true) },
        Entry { key: "codeActionProvider"@, value: Json::Bool(true) },
        Entry { key: "documentFormattingProvider"@, value: Json::Bool(true) },
        Entry { key: "documentRangeFormattingProvider"@, value: Json::Bool(false) },
        Entry { key: "renameProvider"@, value: Json::Bool(true) },
        Entry {
            key: "executeCommandProvider"@,
            value: Json::Object(
                seq![
                    Entry {
                        key: "commands"@,
                        value: Json::Array(seq![Json::String("rls.applySuggestion"@)]),
                    },
                ],
            ),
        },
    ]
}

/// The JSON value of the result of `initialize`.
pub open spec fn initialize_result_json() -> Json {
    Json::Object(seq![Entry { key: "capabilities"@, value: Json::Object(advertised_entries()) }])
}

/// Capabilities that are as the server advertises them go out as the JSON
/// value of the result of `initialize`.
pub proof fn lemma_advertised_json(result: InitializeResult)
    requires
        advertised(result.capabilities),
    ensures
        result.json_of() == initialize_result_json(),
{
    let c = result.capabilities;
    let completion = c.completion_provider->0;
    let commands = c.execute_command_provider->0;
    assert(crate::json::strings_view(completion.trigger_characters@) =~= seq![
        Json::String("."@),
        Json::String(":"@),
    ]);
    assert(crate::json::strings_view(commands.commands@) =~= seq![
        Json::String("rls.applySuggestion"@),
    ]);
    assert(completion.json_of()->Object_0 =~= seq![
        Entry { key: "resolveProvider"@, value: Json::Bool(true) },
        Entry {
            key: "triggerCharacters"@,
            value: Json::Array(seq![Json::String("."@), Json::String(":"@)]),
        },
    ]);
    assert(c.entries_of() =~= advertised_entries());
}

/// The capabilities that the server advertises.
pub fn server_capabilities() -> (c: ServerCapabilities)
    ensures
        advertised(c),
{
    let mut trigger_characters: Vec<String> = Vec::new();
    trigger_characters.push(".".to_owned());
    trigger_characters.push(":".to_owned());
    let mut commands: Vec<String> = Vec::new();
    commands.push("rls.applySuggestion".to_owned());
    ServerCapabilities {
        text_document_sync: Some(TextDocumentSyncKind::Incremental),
        hover_provider: Some(true),
        completion_provider: Some(
            CompletionOptions { resolve_provider: Some(true), trigger_characters },
        ),
        definition_provider: Some(true),
        references_provider: Some(true),
        document_highlight_provider: Some(true),
        document_symbol_provider: Some(true),
        workspace_symbol_provider: Some(true),
        code_action_provider: Some(true),
        document_formatting_provider: Some(true),
        execute_command_provider: Some(ExecuteCommandOptions { commands }),
        rename_provider: Some(true),
        // Range formatting is told of, as not supported; what comes with the
        // client's options may turn it on later.
        document_range_formatting_provider: Some(false),
        code_lens_provider: None,
        document_on_type_formatting_provider: None,
        signature_help_provider: None,
    }
}

impl Response for InitializeResponse {
    /// The result of `initialize` goes out as it stands.
    open spec fn result_of(&self) -> Option<Json> {
        Some(self.result.json_of())
    }

    fn result(&self) -> (r: Option<JsonValue>) {
        Some(self.result.to_json())
    }
}

impl Action for InitializeRequest {
    type Params = InitializeParams;

    open spec fn method_of() -> Seq<char> {
        "initialize"@
    }

    fn method() -> (m: &'static str) {
        "initialize"
    }

    open spec fn takes(value: Json) -> bool {
        InitializeParamsView::of_json(value) is Some
    }

    open spec fn reads(value: Json, params: InitializeParams) -> bool {
        InitializeParamsView::of_json(value) == Some(params@)
    }

    fn read_params(value: &JsonValue) -> (r: Option<InitializeParams>) {
        InitializeParams::from_json(value)
    }

    open spec fn params_json(params: InitializeParams) -> Json {
        params@.json_of()
    }

    fn write_params(params: &InitializeParams) -> (r: JsonValue) {
        params.to_json()
    }

    fn new() -> Self {
        InitializeRequest
    }
}

impl<Ctx> RequestAction<Ctx> for InitializeRequest {
    type Response = InitializeResponse;

    /// The state stays as it is. The response holds the capabilities that
    /// the server advertises, the root that the parameters name and the
    /// options that they choose.
    open spec fn handles(
        id: usize,
        params: InitializeParams,
        before: LsStateView,
        after: LsStateView,
        outcome: Result<InitializeResponse, ()>,
    ) -> bool {
        &&& after == before
        &&& outcome matches Ok(response)
        &&& advertised(response.result.capabilities)
        &&& response.result.json_of() == initialize_result_json()
        &&& response.root_path == root_path_of(params@)
        &&& response.options == InitializationOptions::chosen(params@.initialization_options)
    }

    fn handle(
        &mut self,
        id: usize,
        params: InitializeParams,
        state: &mut LsState,
        ctx: &mut Ctx,
    ) -> (r: Result<InitializeResponse, ()>) {
        let options = match &params.initialization_options {
            Some(value) => match InitializationOptions::from_json(value) {
                Some(options) => options,
                None => InitializationOptions::default(),
            },
            None => InitializationOptions::default(),
        };
        let result = InitializeResult { capabilities: server_capabilities() };
        let root_path = try_get_root_path(&params);
        proof {
            lemma_advertised_json(result);
        }
        Ok(InitializeResponse { result, root_path, options })
    }
}

} // verus!
