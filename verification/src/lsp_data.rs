//! Types of the language server protocol, helpers, and conversions to and
//! from what the analysis and the completion engine use.

use crate::analysis::DefKind;
use crate::json::{
    object, push_member, render, str_eq, string, Entry, Json, JsonValue, Member,
};
use crate::jsonrpc::{number_json, Version};
use crate::racer::{Match, MatchType};
use crate::uri::{file_path, scheme};
use std::path::PathBuf;
use vstd::prelude::*;

pub mod capabilities;
pub mod ls_util;
pub mod params;

pub use self::capabilities::{
    CodeLensOptions, CompletionOptions, DocumentOnTypeFormattingOptions, ExecuteCommandOptions,
    InitializeResult, ServerCapabilities, SignatureHelpOptions, TextDocumentSyncKind,
};
pub use self::params::{InitializeParams, InitializeParamsView};

verus! {

/// Notification string for beginning diagnostics.
pub const NOTIFICATION_DIAGNOSTICS_BEGIN: &'static str = "rustDocument/diagnosticsBegin";

/// Notification string for ending diagnostics.
pub const NOTIFICATION_DIAGNOSTICS_END: &'static str = "rustDocument/diagnosticsEnd";

/// Notification string for when a build begins.
pub const NOTIFICATION_BUILD_BEGIN: &'static str = "rustDocument/beginBuild";

/// A place in a text document: line and character, both counted from zero.
#[derive(Debug, Clone, Copy, PartialEq, Eq, Structural)]
pub struct Position {
    pub line: u64,
    pub character: u64,
}

impl Position {
    pub fn new(line: u64, character: u64) -> (p: Position)
        ensures
            p == (Position { line, character }),
    {
        Position { line, character }
    }
}

/// A stretch of a text document; the end is exclusive.
#[derive(Debug, Clone, Copy, PartialEq, Eq, Structural)]
pub struct Range {
    pub start: Position,
    pub end: Position,
}

impl Range {
    pub fn new(start: Position, end: Position) -> (r: Range)
        ensures
            r == (Range { start, end }),
    {
        Range { start, end }
    }
}

/// A range in the document that a URI names.
#[derive(Debug, PartialEq, Eq)]
pub struct Location {
    pub uri: String,
    pub range: Range,
}

/// New text for a range of a document.
#[derive(Debug, PartialEq, Eq)]
pub struct TextEdit {
    pub range: Range,
    pub new_text: String,
}

/// The edits to one document.
#[derive(Debug, PartialEq, Eq)]
pub struct DocumentEdits {
    pub uri: String,
    pub edits: Vec<TextEdit>,
}

/// Edits to the documents of a workspace. No document stands twice in
/// `changes`.
#[derive(Debug, PartialEq, Eq)]
pub struct WorkspaceEdit {
    pub changes: Vec<DocumentEdits>,
}

impl WorkspaceEdit {
    /// No document stands twice.
    pub open spec fn well_formed(self) -> bool {
        forall|i: int, j: int|
            0 <= i < j < self.changes@.len() ==> self.changes@[i].uri@ != self.changes@[j].uri@
    }
}

/// The kind of a symbol, as the protocol knows it.
#[derive(Debug, Clone, Copy, PartialEq, Eq, Structural)]
pub enum SymbolKind {
    File,
    Module,
    Namespace,
    Package,
    Class,
    Method,
    Property,
    Field,
    Constructor,
    Enum,
    Interface,
    Function,
    Variable,
    Constant,
    String,
    Number,
    Boolean,
    Array,
}

/// The kind of a completion, as the protocol knows it.
#[derive(Debug, Clone, Copy, PartialEq, Eq, Structural)]
pub enum CompletionItemKind {
    Text,
    Method,
    Function,
    Constructor,
    Field,
    Variable,
    Class,
    Interface,
    Module,
    Property,
    Unit,
    Value,
    Enum,
    Keyword,
    Snippet,
    Color,
    File,
    Reference,
}

/// A completion offered to the client.
#[derive(Debug, PartialEq, Eq)]
pub struct CompletionItem {
    pub label: String,
    pub kind: Option<CompletionItemKind>,
    pub detail: Option<String>,
}

impl CompletionItem {
    /// A completion with a label and a detail, and nothing else.
    pub fn new_simple(label: String, detail: String) -> (item: CompletionItem)
        ensures
            item.label == label,
            item.kind is None,
            item.detail == Some(detail),
    {
        CompletionItem { label, kind: None, detail: Some(detail) }
    }
}

/// Errors that can occur when parsing a file URI.
#[derive(Debug, Clone, Copy, PartialEq, Eq, Structural)]
pub enum UrlFileParseError {
    /// The URI scheme is not `file`.
    InvalidScheme,
    /// Invalid file path in the URI.
    InvalidFilePath,
}

impl UrlFileParseError {
    pub open spec fn description_of(self) -> Seq<char> {
        match self {
            UrlFileParseError::InvalidScheme => "URI scheme is not `file`"@,
            UrlFileParseError::InvalidFilePath => "Invalid file path in URI"@,
        }
    }

    /// What went wrong, in words.
    pub fn description(&self) -> (r: &'static str)
        ensures
            r@ == self.description_of(),
    {
        match *self {
            UrlFileParseError::InvalidScheme => "URI scheme is not `file`",
            UrlFileParseError::InvalidFilePath => "Invalid file path in URI",
        }
    }

    /// The description, as an owned string.
    pub fn to_string(&self) -> (r: String)
        ensures
            r@ == self.description_of(),
    {
        self.description().to_owned()
    }
}

/// The file that a URI names: the path of a URI whose scheme is `file`.
pub open spec fn file_of(uri: Seq<char>) -> Result<PathBuf, UrlFileParseError> {
    if crate::uri::scheme_of(uri) != Some("file"@) {
        Err(UrlFileParseError::InvalidScheme)
    } else {
        match crate::uri::file_path_of(uri) {
            Some(path) => Ok(path),
            None => Err(UrlFileParseError::InvalidFilePath),
        }
    }
}

/// Parse the given URI into a `PathBuf`.
pub fn parse_file_path(uri: &str) -> (r: Result<PathBuf, UrlFileParseError>)
    ensures
        r == file_of(uri@),
{
    let is_file = match scheme(uri) {
        Some(s) => str_eq(s.as_str(), "file"),
        None => false,
    };
    if !is_file {
        Err(UrlFileParseError::InvalidScheme)
    } else {
        match file_path(uri) {
            Some(path) => Ok(path),
            None => Err(UrlFileParseError::InvalidFilePath),
        }
    }
}

/// Create an edit for the given location and text: one document, one edit.
pub fn make_workspace_edit(location: Location, new_text: String) -> (edit: WorkspaceEdit)
    ensures
        edit.well_formed(),
        edit.changes@.len() == 1,
        edit.changes@[0].uri == location.uri,
        edit.changes@[0].edits@ == seq![TextEdit { range: location.range, new_text }],
{
    let mut edits: Vec<TextEdit> = Vec::new();
    edits.push(TextEdit { range: location.range, new_text });
    let mut changes: Vec<DocumentEdits> = Vec::new();
    changes.push(DocumentEdits { uri: location.uri, edits });
    WorkspaceEdit { changes }
}

/// The symbol kind that stands for a kind of definition.
pub open spec fn symbol_kind_of(k: DefKind) -> SymbolKind {
    match k {
        DefKind::Enum => SymbolKind::Enum,
        DefKind::TupleVariant => SymbolKind::Constant,
        DefKind::Tuple => SymbolKind::Array,
        DefKind::StructVariant | DefKind::Struct | DefKind::Union => SymbolKind::Class,
        DefKind::Trait | DefKind::Type | DefKind::ExternType => SymbolKind::Interface,
        DefKind::Function | DefKind::Method | DefKind::Macro => SymbolKind::Function,
        DefKind::Mod => SymbolKind::Module,
        DefKind::Local | DefKind::Static | DefKind::Const | DefKind::Field => SymbolKind::Variable,
    }
}

/// Convert an RLS def-kind to a language server protocol symbol-kind.
pub fn source_kind_from_def_kind(k: DefKind) -> (r: SymbolKind)
    ensures
        r == symbol_kind_of(k),
{
    match k {
        DefKind::Enum => SymbolKind::Enum,
        DefKind::TupleVariant => SymbolKind::Constant,
        DefKind::StructVariant => SymbolKind::Class,
        DefKind::Tuple => SymbolKind::Array,
        DefKind::Struct => SymbolKind::Class,
        DefKind::Union => SymbolKind::Class,
        DefKind::Trait => SymbolKind::Interface,
        DefKind::Function | DefKind::Method | DefKind::Macro => SymbolKind::Function,
        DefKind::Mod => SymbolKind::Module,
        DefKind::Type | DefKind::ExternType => SymbolKind::Interface,
        DefKind::Local | DefKind::Static | DefKind::Const | DefKind::Field => SymbolKind::Variable,
    }
}

/// The completion kind that stands for a kind of match.
pub open spec fn completion_kind_of(m: MatchType) -> CompletionItemKind {
    match m {
        MatchType::Crate | MatchType::Module => CompletionItemKind::Module,
        MatchType::Struct => CompletionItemKind::Class,
        MatchType::Enum => CompletionItemKind::Enum,
        MatchType::StructField | MatchType::EnumVariant => CompletionItemKind::Field,
        MatchType::Macro | MatchType::Function | MatchType::FnArg | MatchType::Impl =>
            CompletionItemKind::Function,
        MatchType::Type | MatchType::Trait | MatchType::TraitImpl => CompletionItemKind::Interface,
        MatchType::Builtin => CompletionItemKind::Keyword,
        MatchType::Let | MatchType::IfLet | MatchType::WhileLet | MatchType::For
        | MatchType::MatchArm | MatchType::Const | MatchType::Static => CompletionItemKind::Variable,
    }
}

/// What kind of completion is this racer match type?
pub fn completion_kind_from_match_type(m: MatchType) -> (r: CompletionItemKind)
    ensures
        r == completion_kind_of(m),
{
    match m {
        MatchType::Crate | MatchType::Module => CompletionItemKind::Module,
        MatchType::Struct => CompletionItemKind::Class,
        MatchType::Enum => CompletionItemKind::Enum,
        MatchType::StructField | MatchType::EnumVariant => CompletionItemKind::Field,
        MatchType::Macro | MatchType::Function | MatchType::FnArg | MatchType::Impl =>
            CompletionItemKind::Function,
        MatchType::Type | MatchType::Trait | MatchType::TraitImpl => CompletionItemKind::Interface,
        MatchType::Let | MatchType::IfLet | MatchType::WhileLet | MatchType::For
        | MatchType::MatchArm | MatchType::Const | MatchType::Static => CompletionItemKind::Variable,
        MatchType::Builtin => CompletionItemKind::Keyword,
    }
}

/// Convert a racer match into an RLS completion: the matched text is the
/// label, the line it was found on the detail.
pub fn completion_item_from_racer_match(m: Match) -> (item: CompletionItem)
    ensures
        item.label@ == m.matchstr@,
        item.detail matches Some(detail) && detail@ == m.contextstr@,
        item.kind == Some(completion_kind_of(m.mtype)),
{
    let mut item = CompletionItem::new_simple(m.matchstr.clone(), m.contextstr.clone());
    item.kind = Some(completion_kind_from_match_type(m.mtype));
    item
}

/// Supported initialization options that can be passed in the `initialize`
/// request, under the `initializationOptions` key.
#[derive(Debug, Clone, Copy, PartialEq, Eq, Structural)]
pub struct InitializationOptions {
    /// Should the build not be triggered immediately after receiving
    /// `initialize`.
    pub omit_init_build: bool,
}

impl Default for InitializationOptions {
    fn default() -> (r: Self)
        ensures
            r == (InitializationOptions { omit_init_build: false }),
    {
        InitializationOptions { omit_init_build: false }
    }
}

/// An event-like (no response needed) notification message.
#[derive(Debug, PartialEq)]
pub struct NotificationMessage {
    /// The protocol version, which is always 2.0.
    pub jsonrpc: Version,
    /// The well-known language server protocol notification method string.
    pub method: &'static str,
    /// Extra notification parameters.
    pub params: Option<JsonValue>,
}

impl NotificationMessage {
    /// Construct a new notification message.
    pub fn new(method: &'static str, params: Option<JsonValue>) -> (m: Self)
        ensures
            m.jsonrpc == Version::V2,
            m.method == method,
            m.params == params,
    {
        NotificationMessage { jsonrpc: Version::V2, method, params }
    }
}

impl NotificationMessage {
    /// The JSON object that stands for a notification message: its version,
    /// its method, and its parameters, `null` where it has none.
    pub open spec fn json_of(method: Seq<char>, params: Option<Json>) -> Json {
        Json::Object(
            seq![
                Entry { key: "jsonrpc"@, value: Json::String("2.0"@) },
                Entry { key: "method"@, value: Json::String(method) },
                Entry {
                    key: "params"@,
                    value: match params {
                        Some(params) => params,
                        None => Json::Null,
                    },
                },
            ],
        )
    }

    /// This message as a JSON value.
    pub fn to_json(&self) -> (r: JsonValue)
        ensures
            r@ == NotificationMessage::json_of(self.method@, crate::json::option_view(self.params)),
    {
        let mut members: Vec<Member> = Vec::new();
        assert(crate::json::members_view(members@) =~= Seq::empty());
        push_member(&mut members, "jsonrpc", string(self.jsonrpc.text()));
        push_member(&mut members, "method", string(self.method));
        let params = match &self.params {
            Some(params) => params.duplicate(),
            None => JsonValue::Null,
        };
        push_member(&mut members, "params", params);
        assert(crate::json::members_view(members@) =~= NotificationMessage::json_of(
            self.method@,
            crate::json::option_view(self.params),
        )->Object_0);
        object(members)
    }

    /// This message as JSON text.
    pub fn to_string(&self) -> (text: String)
        ensures
            text@ == crate::json::rendered(
                NotificationMessage::json_of(self.method@, crate::json::option_view(self.params)),
            ),
    {
        render(&self.to_json())
    }
}

/// The JSON value of a notification message holds the version `2.0`, the
/// method as it was given, and the parameters as they were given.
pub proof fn lemma_notification_message_json(method: Seq<char>, params: Option<Json>)
    ensures
        ({
            let json = NotificationMessage::json_of(method, params);
            &&& json.member("jsonrpc"@) == Some(Json::String("2.0"@))
            &&& json.member("method"@) == Some(Json::String(method))
            &&& params matches Some(p) ==> json.member("params"@) == Some(p)
            &&& params is None ==> json.member("params"@) == Some(Json::Null)
        }),
{
    reveal_strlit("jsonrpc");
    reveal_strlit("method");
    reveal_strlit("params");
    let members = NotificationMessage::json_of(method, params)->Object_0;
    crate::json::lemma_first_from(members, "jsonrpc"@, 0);
    crate::json::lemma_first_from(members, "method"@, 0);
    crate::json::lemma_first_from(members, "params"@, 0);
    assert("jsonrpc"@.len() == 7 && "method"@.len() == 6 && "params"@.len() == 6);
    assert("method"@[0] != "params"@[0]);
}

/// A JSON language server protocol request that will have a matching
/// response.
#[derive(Debug, PartialEq)]
pub struct RequestMessage<T> {
    /// The protocol version, which is always 2.0.
    pub jsonrpc: Version,
    /// The request id. The response will have a matching id.
    pub id: u32,
    /// The well-known language server protocol request method string.
    pub method: String,
    /// Extra request parameters.
    pub params: T,
}

impl<T> RequestMessage<T> {
    /// Construct a new request.
    pub fn new(id: u32, method: String, params: T) -> (m: Self)
        ensures
            m.jsonrpc == Version::V2,
            m.id == id,
            m.method == method,
            m.params == params,
    {
        RequestMessage { jsonrpc: Version::V2, id, method: method, params: params }
    }
}

impl RequestMessage<JsonValue> {
    /// The JSON object that stands for a request message: its version, its
    /// id, its method and its parameters.
    pub open spec fn json_of(id: u32, method: Seq<char>, params: Json) -> Json {
        Json::Object(
            seq![
                Entry { key: "jsonrpc"@, value: Json::String("2.0"@) },
                Entry { key: "id"@, value: Json::Number(crate::jsonrpc::numeral(id as nat)) },
                Entry { key: "method"@, value: Json::String(method) },
                Entry { key: "params"@, value: params },
            ],
        )
    }

    /// This message as a JSON value.
    pub fn to_json(&self) -> (r: JsonValue)
        ensures
            r@ == RequestMessage::json_of(self.id, self.method@, self.params@),
    {
        let mut members: Vec<Member> = Vec::new();
        assert(crate::json::members_view(members@) =~= Seq::empty());
        push_member(&mut members, "jsonrpc", string(self.jsonrpc.text()));
        push_member(&mut members, "id", number_json(self.id as u64));
        push_member(&mut members, "method", string(self.method.as_str()));
        push_member(&mut members, "params", self.params.duplicate());
        assert(crate::json::members_view(members@) =~= RequestMessage::json_of(
            self.id,
            self.method@,
            self.params@,
        )->Object_0);
        object(members)
    }

    /// This message as JSON text.
    pub fn to_string(&self) -> (text: String)
        ensures
            text@ == crate::json::rendered(
                RequestMessage::json_of(self.id, self.method@, self.params@),
            ),
    {
        render(&self.to_json())
    }
}

/// The JSON value of a request message holds the version `2.0`, and the id,
/// the method and the parameters as they were given.
pub proof fn lemma_request_message_json(id: u32, method: Seq<char>, params: Json)
    ensures
        ({
            let json = RequestMessage::json_of(id, method, params);
            &&& json.member("jsonrpc"@) == Some(Json::String("2.0"@))
            &&& json.member("id"@) == Some(Json::Number(crate::jsonrpc::numeral(id as nat)))
            &&& json.member("method"@) == Some(Json::String(method))
            &&& json.member("params"@) == Some(params)
        }),
{
    reveal_strlit("jsonrpc");
    reveal_strlit("id");
    reveal_strlit("method");
    reveal_strlit("params");
    let members = RequestMessage::json_of(id, method, params)->Object_0;
    crate::json::lemma_first_from(members, "jsonrpc"@, 0);
    crate::json::lemma_first_from(members, "id"@, 0);
    crate::json::lemma_first_from(members, "method"@, 0);
    crate::json::lemma_first_from(members, "params"@, 0);
    assert("jsonrpc"@.len() == 7 && "id"@.len() == 2 && "method"@.len() == 6 && "params"@.len()
        == 6);
    assert("method"@[0] != "params"@[0]);
}

} // verus!
