//! What the server tells the client it can do: the result of `initialize`.

use crate::json::{object, push_member, string, strings, Entry, Json, JsonValue, Member};
use crate::jsonrpc::number_json;
use vstd::prelude::*;

verus! {

/// How the client keeps the server's copy of a document up to date.
#[derive(Debug, Clone, Copy, PartialEq, Eq, Structural)]
pub enum TextDocumentSyncKind {
    /// Documents are not synced.
    Off,
    /// Each change sends the whole document.
    Full,
    /// Each change sends what changed.
    Incremental,
}

impl TextDocumentSyncKind {
    /// The number that stands for this kind on the wire.
    pub open spec fn number_of(self) -> nat {
        match self {
            TextDocumentSyncKind::Off => 0,
            TextDocumentSyncKind::Full => 1,
            TextDocumentSyncKind::Incremental => 2,
        }
    }

    pub fn number(&self) -> (n: u64)
        ensures
            n == self.number_of(),
    {
        match self {
            TextDocumentSyncKind::Off => 0,
            TextDocumentSyncKind::Full => 1,
            TextDocumentSyncKind::Incremental => 2,
        }
    }
}

/// Completion options.
#[derive(Debug, PartialEq, Eq)]
pub struct CompletionOptions {
    /// The server provides support to resolve additional information for a
    /// completion item.
    pub resolve_provider: Option<bool>,
    /// The characters that trigger completion automatically.
    pub trigger_characters: Vec<String>,
}

/// Execute command options.
#[derive(Debug, PartialEq, Eq)]
pub struct ExecuteCommandOptions {
    /// The commands to be executed on the server.
    pub commands: Vec<String>,
}

/// Code lens options.
#[derive(Debug, PartialEq, Eq)]
pub struct CodeLensOptions {
    /// Code lens has a resolve provider as well.
    pub resolve_provider: Option<bool>,
}

/// Format document on type options.
#[derive(Debug, PartialEq, Eq)]
pub struct DocumentOnTypeFormattingOptions {
    /// A character on which formatting should be triggered.
    pub first_trigger_character: String,
    /// More trigger characters.
    pub more_trigger_character: Vec<String>,
}

/// Signature help options.
#[derive(Debug, PartialEq, Eq)]
pub struct SignatureHelpOptions {
    /// The characters that trigger signature help automatically.
    pub trigger_characters: Vec<String>,
}

/// What the server can do.
#[derive(Debug, PartialEq, Eq)]
pub struct ServerCapabilities {
    pub text_document_sync: Option<TextDocumentSyncKind>,
    pub hover_provider: Option<bool>,
    pub completion_provider: Option<CompletionOptions>,
    pub signature_help_provider: Option<SignatureHelpOptions>,
    pub definition_provider: Option<bool>,
    pub references_provider: Option<bool>,
    pub document_highlight_provider: Option<bool>,
    pub document_symbol_provider: Option<bool>,
    pub workspace_symbol_provider: Option<bool>,
    pub code_action_provider: Option<bool>,
    pub code_lens_provider: Option<CodeLensOptions>,
    pub document_formatting_provider: Option<bool>,
    pub document_range_formatting_provider: Option<bool>,
    pub document_on_type_formatting_provider: Option<DocumentOnTypeFormattingOptions>,
    pub rename_provider: Option<bool>,
    pub execute_command_provider: Option<ExecuteCommandOptions>,
}

/// The result of `initialize`.
#[derive(Debug, PartialEq, Eq)]
pub struct InitializeResult {
    pub capabilities: ServerCapabilities,
}

/// `entries`, and after them the member `key` where there is a value for it.
pub open spec fn with(entries: Seq<Entry>, key: Seq<char>, value: Option<Json>) -> Seq<Entry> {
    match value {
        Some(value) => entries.push(Entry { key, value }),
        None => entries,
    }
}

pub open spec fn bool_json(b: Option<bool>) -> Option<Json> {
    match b {
        Some(b) => Some(Json::Bool(b)),
        None => None,
    }
}

impl CompletionOptions {
    pub open spec fn json_of(self) -> Json {
        Json::Object(
            with(Seq::empty(), "resolveProvider"@, bool_json(self.resolve_provider)).push(
                Entry {
                    key: "triggerCharacters"@,
                    value: Json::Array(crate::json::strings_view(self.trigger_characters@)),
                },
            ),
        )
    }

    pub fn to_json(&self) -> (r: JsonValue)
        ensures
            r@ == self.json_of(),
    {
        let mut members: Vec<Member> = Vec::new();
        assert(crate::json::members_view(members@) =~= Seq::empty());
        push_bool(&mut members, "resolveProvider", self.resolve_provider);
        push_member(&mut members, "triggerCharacters", strings(&self.trigger_characters));
        object(members)
    }
}

impl ExecuteCommandOptions {
    pub open spec fn json_of(self) -> Json {
        Json::Object(
            seq![
                Entry {
                    key: "commands"@,
                    value: Json::Array(crate::json::strings_view(self.commands@)),
                },
            ],
        )
    }

    pub fn to_json(&self) -> (r: JsonValue)
        ensures
            r@ == self.json_of(),
    {
        let mut members: Vec<Member> = Vec::new();
        assert(crate::json::members_view(members@) =~= Seq::empty());
        push_member(&mut members, "commands", strings(&self.commands));
        assert(crate::json::members_view(members@) =~= self.json_of()->Object_0);
        object(members)
    }
}

impl CodeLensOptions {
    pub open spec fn json_of(self) -> Json {
        Json::Object(with(Seq::empty(), "resolveProvider"@, bool_json(self.resolve_provider)))
    }

    pub fn to_json(&self) -> (r: JsonValue)
        ensures
            r@ == self.json_of(),
    {
        let mut members: Vec<Member> = Vec::new();
        assert(crate::json::members_view(members@) =~= Seq::empty());
        push_bool(&mut members, "resolveProvider", self.resolve_provider);
        object(members)
    }
}

impl DocumentOnTypeFormattingOptions {
    pub open spec fn json_of(self) -> Json {
        Json::Object(
            seq![
                Entry {
                    key: "firstTriggerCharacter"@,
                    value: Json::String(self.first_trigger_character@),
                },
                Entry {
                    key: "moreTriggerCharacter"@,
                    value: Json::Array(crate::json::strings_view(self.more_trigger_character@)),
                },
            ],
        )
    }

    pub fn to_json(&self) -> (r: JsonValue)
        ensures
            r@ == self.json_of(),
    {
        let mut members: Vec<Member> = Vec::new();
        assert(crate::json::members_view(members@) =~= Seq::empty());
        push_member(
            &mut members,
            "firstTriggerCharacter",
            string(self.first_trigger_character.as_str()),
        );
        push_member(&mut members, "moreTriggerCharacter", strings(&self.more_trigger_character));
        assert(crate::json::members_view(members@) =~= self.json_of()->Object_0);
        object(members)
    }
}

impl SignatureHelpOptions {
    pub open spec fn json_of(self) -> Json {
        Json::Object(
            seq![
                Entry {
                    key: "triggerCharacters"@,
                    value: Json::Array(crate::json::strings_view(self.trigger_characters@)),
                },
            ],
        )
    }

    pub fn to_json(&self) -> (r: JsonValue)
        ensures
            r@ == self.json_of(),
    {
        let mut members: Vec<Member> = Vec::new();
        assert(crate::json::members_view(members@) =~= Seq::empty());
        push_member(&mut members, "triggerCharacters", strings(&self.trigger_characters));
        assert(crate::json::members_view(members@) =~= self.json_of()->Object_0);
        object(members)
    }
}

/// Adds the member `key` at the end of `members`, where there is a value for
/// it.
fn push_bool(members: &mut Vec<Member>, key: &str, value: Option<bool>)
    ensures
        crate::json::members_view(final(members)@) == with(
            crate::json::members_view(old(members)@),
            key@,
            bool_json(value),
        ),
{
    match value {
        Some(b) => push_member(members, key, JsonValue::Bool(b)),
        None => {},
    }
}

/// Adds the member `key` at the end of `members`, where there is a value for
/// it.
fn push_opt(members: &mut Vec<Member>, key: &str, value: Option<JsonValue>)
    ensures
        crate::json::members_view(final(members)@) == with(
            crate::json::members_view(old(members)@),
            key@,
            crate::json::option_view(value),
        ),
{
    match value {
        Some(v) => push_member(members, key, v),
        None => {},
    }
}

impl ServerCapabilities {
    pub open spec fn sync_json(self) -> Option<Json> {
        match self.text_document_sync {
            Some(kind) => Some(Json::Number(crate::jsonrpc::numeral(kind.number_of()))),
            None => None,
        }
    }

    pub open spec fn completion_json(self) -> Option<Json> {
        match self.completion_provider {
            Some(options) => Some(options.json_of()),
            None => None,
        }
    }

    pub open spec fn signature_help_json(self) -> Option<Json> {
        match self.signature_help_provider {
            Some(options) => Some(options.json_of()),
            None => None,
        }
    }

    pub open spec fn code_lens_json(self) -> Option<Json> {
        match self.code_lens_provider {
            Some(options) => Some(options.json_of()),
            None => None,
        }
    }

    pub open spec fn on_type_formatting_json(self) -> Option<Json> {
        match self.document_on_type_formatting_provider {
            Some(options) => Some(options.json_of()),
            None => None,
        }
    }

    pub open spec fn execute_command_json(self) -> Option<Json> {
        match self.execute_command_provider {
            Some(options) => Some(options.json_of()),
            None => None,
        }
    }

    /// The members of the JSON object that stands for these capabilities: one
    /// for each capability that is stated, under its protocol name.
    pub open spec fn entries_of(self) -> Seq<Entry> {
        let e = with(Seq::empty(), "textDocumentSync"@, self.sync_json());
        let e = with(e, "hoverProvider"@, bool_json(self.hover_provider));
        let e = with(e, "completionProvider"@, self.completion_json());
        let e = with(e, "signatureHelpProvider"@, self.signature_help_json());
        let e = with(e, "definitionProvider"@, bool_json(self.definition_provider));
        let e = with(e, "referencesProvider"@, bool_json(self.references_provider));
        let e = with(e, "documentHighlightProvider"@, bool_json(self.document_highlight_provider));
        let e = with(e, "documentSymbolProvider"@, bool_json(self.document_symbol_provider));
        let e = with(e, "workspaceSymbolProvider"@, bool_json(self.workspace_symbol_provider));
        let e = with(e, "codeActionProvider"@, bool_json(self.code_action_provider));
        let e = with(e, "codeLensProvider"@, self.code_lens_json());
        let e = with(
            e,
            "documentFormattingProvider"@,
            bool_json(self.document_formatting_provider),
        );
        let e = with(
            e,
            "documentRangeFormattingProvider"@,
            bool_json(self.document_range_formatting_provider),
        );
        let e = with(e, "documentOnTypeFormattingProvider"@, self.on_type_formatting_json());
        let e = with(e, "renameProvider"@, bool_json(self.rename_provider));
        with(e, "executeCommandProvider"@, self.execute_command_json())
    }

    pub open spec fn json_of(self) -> Json {
        Json::Object(self.entries_of())
    }

    /// These capabilities as a JSON value.
    pub fn to_json(&self) -> (r: JsonValue)
        ensures
            r@ == self.json_of(),
    {
        let mut members: Vec<Member> = Vec::new();
        assert(crate::json::members_view(members@) =~= Seq::empty());
        let sync = match &self.text_document_sync {
            Some(kind) => Some(number_json(kind.number())),
            None => None,
        };
        push_opt(&mut members, "textDocumentSync", sync);
        push_bool(&mut members, "hoverProvider", self.hover_provider);
        let completion = match &self.completion_provider {
            Some(options) => Some(options.to_json()),
            None => None,
        };
        push_opt(&mut members, "completionProvider", completion);
        let signature_help = match &self.signature_help_provider {
            Some(options) => Some(options.to_json()),
            None => None,
        };
        push_opt(&mut members, "signatureHelpProvider", signature_help);
        push_bool(&mut members, "definitionProvider", self.definition_provider);
        push_bool(&mut members, "referencesProvider", self.references_provider);
        push_bool(&mut members, "documentHighlightProvider", self.document_highlight_provider);
        push_bool(&mut members, "documentSymbolProvider", self.document_symbol_provider);
        push_bool(&mut members, "workspaceSymbolProvider", self.workspace_symbol_provider);
        push_bool(&mut members, "codeActionProvider", self.code_action_provider);
        let code_lens = match &self.code_lens_provider {
            Some(options) => Some(options.to_json()),
            None => None,
        };
        push_opt(&mut members, "codeLensProvider", code_lens);
        push_bool(&mut members, "documentFormattingProvider", self.document_formatting_provider);
        push_bool(
            &mut members,
            "documentRangeFormattingProvider",
            self.document_range_formatting_provider,
        );
        let on_type = match &self.document_on_type_formatting_provider {
            Some(options) => Some(options.to_json()),
            None => None,
        };
        push_opt(&mut members, "documentOnTypeFormattingProvider", on_type);
        push_bool(&mut members, "renameProvider", self.rename_provider);
        let execute_command = match &self.execute_command_provider {
            Some(options) => Some(options.to_json()),
            None => None,
        };
        push_opt(&mut members, "executeCommandProvider", execute_command);
        object(members)
    }
}

impl InitializeResult {
    pub open spec fn json_of(self) -> Json {
        Json::Object(seq![Entry { key: "capabilities"@, value: self.capabilities.json_of() }])
    }

    /// This result as a JSON value.
    pub fn to_json(&self) -> (r: JsonValue)
        ensures
            r@ == self.json_of(),
    {
        let mut members: Vec<Member> = Vec::new();
        assert(crate::json::members_view(members@) =~= Seq::empty());
        push_member(&mut members, "capabilities", self.capabilities.to_json());
        assert(crate::json::members_view(members@) =~= self.json_of()->Object_0);
        object(members)
    }
}

} // verus!
