use rls::analysis::DefKind;
use rls::json::{parse, render, JsonValue};
use rls::jsonrpc::Version;
use rls::lsp_data::ls_util::{
    location_to_rls, position_to_rls, range_from_vfs_file, range_to_rls, rls_location_to_location,
    rls_to_location, rls_to_position, rls_to_range, try_rls_location_to_location,
    try_rls_to_location,
};
use rls::lsp_data::{
    completion_item_from_racer_match, completion_kind_from_match_type, make_workspace_edit,
    parse_file_path, source_kind_from_def_kind, CodeLensOptions, CompletionItem,
    CompletionItemKind, CompletionOptions, DocumentEdits, DocumentOnTypeFormattingOptions,
    ExecuteCommandOptions, InitializationOptions, InitializeParams, InitializeResult, Location,
    NotificationMessage, Position, Range, RequestMessage, ServerCapabilities,
    SignatureHelpOptions, SymbolKind, TextDocumentSyncKind, TextEdit, UrlFileParseError,
    WorkspaceEdit, NOTIFICATION_BUILD_BEGIN, NOTIFICATION_DIAGNOSTICS_BEGIN,
    NOTIFICATION_DIAGNOSTICS_END,
};
use rls::racer::{Match, MatchType};
use rls::span;
use std::path::PathBuf;

fn range(a: u64, b: u64, c: u64, d: u64) -> Range {
    Range::new(Position::new(a, b), Position::new(c, d))
}

#[test]
fn notification_names_are_the_protocol_s() {
    assert_eq!(NOTIFICATION_DIAGNOSTICS_BEGIN, "rustDocument/diagnosticsBegin");
    assert_eq!(NOTIFICATION_DIAGNOSTICS_END, "rustDocument/diagnosticsEnd");
    assert_eq!(NOTIFICATION_BUILD_BEGIN, "rustDocument/beginBuild");
}

#[test]
fn file_uri_names_its_path() {
    assert_eq!(parse_file_path("file:///tmp/foo.rs"), Ok(PathBuf::from("/tmp/foo.rs")));
    assert_eq!(parse_file_path("file://localhost/tmp/a%20b"), Ok(PathBuf::from("/tmp/a b")));
    assert_eq!(parse_file_path("FILE:///tmp/foo.rs"), Ok(PathBuf::from("/tmp/foo.rs")));
}

#[test]
fn uri_with_another_scheme_is_refused() {
    assert_eq!(parse_file_path("http://example.net/tmp/foo"), Err(UrlFileParseError::InvalidScheme));
    assert_eq!(parse_file_path("untitled:foo"), Err(UrlFileParseError::InvalidScheme));
}

#[test]
fn text_that_is_no_uri_is_refused() {
    assert_eq!(parse_file_path("/tmp/foo"), Err(UrlFileParseError::InvalidScheme));
    assert_eq!(parse_file_path(""), Err(UrlFileParseError::InvalidScheme));
}

#[test]
fn file_uri_on_another_host_is_refused() {
    assert_eq!(
        parse_file_path("file://example.net/tmp/foo"),
        Err(UrlFileParseError::InvalidFilePath)
    );
}

#[test]
fn uri_errors_say_what_went_wrong() {
    assert_eq!(UrlFileParseError::InvalidScheme.description(), "URI scheme is not `file`");
    assert_eq!(UrlFileParseError::InvalidFilePath.description(), "Invalid file path in URI");
    assert_eq!(UrlFileParseError::InvalidScheme.to_string(), "URI scheme is not `file`");
    assert_eq!(UrlFileParseError::InvalidFilePath.to_string(), "Invalid file path in URI");
}

#[test]
fn workspace_edit_holds_one_edit_to_one_document() {
    let location = Location { uri: "file:///a.rs".to_string(), range: range(1, 2, 3, 4) };
    let edit = make_workspace_edit(location, "new".to_string());
    assert_eq!(
        edit,
        WorkspaceEdit {
            changes: vec![DocumentEdits {
                uri: "file:///a.rs".to_string(),
                edits: vec![TextEdit { range: range(1, 2, 3, 4), new_text: "new".to_string() }],
            }],
        }
    );
}

#[test]
fn positions_go_to_the_analysis_and_back() {
    assert_eq!(position_to_rls(Position::new(3, 4)), span::Position::new(3, 4));
    assert_eq!(rls_to_position(span::Position::new(3, 4)), Position::new(3, 4));
    assert_eq!(rls_to_position(span::Position::new(u32::MAX, 0)), Position::new(4294967295, 0));
}

#[test]
fn positions_are_cut_down_to_32_bits() {
    assert_eq!(position_to_rls(Position::new(4294967296 + 5, 4294967295)), span::Position::new(5, u32::MAX));
    assert_eq!(position_to_rls(Position::new(u64::MAX, 0)), span::Position::new(u32::MAX, 0));
}

#[test]
fn ranges_go_to_the_analysis_and_back() {
    let there = range_to_rls(range(1, 2, 3, 4));
    assert_eq!(there, span::Range { row_start: 1, row_end: 3, col_start: 2, col_end: 4 });
    assert_eq!(there.start(), span::Position::new(1, 2));
    assert_eq!(there.end(), span::Position::new(3, 4));
    assert_eq!(rls_to_range(there), range(1, 2, 3, 4));
    assert_eq!(
        span::Range::from_positions(span::Position::new(1, 2), span::Position::new(3, 4)),
        there
    );
}

#[test]
fn location_becomes_a_span() {
    let location = Location { uri: "file:///src/lib.rs".to_string(), range: range(1, 2, 3, 4) };
    assert_eq!(
        location_to_rls(location),
        Ok(span::Span {
            file: PathBuf::from("/src/lib.rs"),
            range: span::Range { row_start: 1, row_end: 3, col_start: 2, col_end: 4 },
        })
    );
    let location = Location { uri: "http://src/lib.rs".to_string(), range: range(1, 2, 3, 4) };
    assert_eq!(location_to_rls(location), Err(UrlFileParseError::InvalidScheme));
    let location = Location { uri: "file://far/lib.rs".to_string(), range: range(1, 2, 3, 4) };
    assert_eq!(location_to_rls(location), Err(UrlFileParseError::InvalidFilePath));
}

#[test]
fn span_becomes_a_location() {
    let s = span::Span {
        file: PathBuf::from("/src/my lib.rs"),
        range: span::Range { row_start: 1, row_end: 3, col_start: 2, col_end: 4 },
    };
    let expected = Location { uri: "file:///src/my%20lib.rs".to_string(), range: range(1, 2, 3, 4) };
    assert_eq!(rls_to_location(&s), expected);
    assert_eq!(try_rls_to_location(&s), Some(expected));
}

#[test]
fn span_in_a_relative_file_becomes_no_location() {
    let s = span::Span {
        file: PathBuf::from("src/lib.rs"),
        range: span::Range { row_start: 1, row_end: 3, col_start: 2, col_end: 4 },
    };
    assert_eq!(try_rls_to_location(&s), None);
}

#[test]
fn analysis_location_becomes_an_empty_range() {
    let l = span::Location { file: PathBuf::from("/src/lib.rs"), position: span::Position::new(7, 9) };
    let expected = Location { uri: "file:///src/lib.rs".to_string(), range: range(7, 9, 7, 9) };
    assert_eq!(rls_location_to_location(&l), expected);
    assert_eq!(try_rls_location_to_location(&l), Some(expected));
    let l = span::Location { file: PathBuf::from("lib.rs"), position: span::Position::new(7, 9) };
    assert_eq!(try_rls_location_to_location(&l), None);
}

#[test]
fn range_of_an_empty_file_is_empty() {
    assert_eq!(range_from_vfs_file(""), range(0, 0, 0, 0));
}

#[test]
fn range_of_a_file_ends_behind_its_last_character() {
    assert_eq!(range_from_vfs_file("abc"), range(0, 0, 0, 3));
    assert_eq!(range_from_vfs_file("abc\n"), range(0, 0, 1, 0));
    assert_eq!(range_from_vfs_file("a\nbc"), range(0, 0, 1, 2));
    assert_eq!(range_from_vfs_file("a\nbc\n"), range(0, 0, 2, 0));
    assert_eq!(range_from_vfs_file("\n"), range(0, 0, 1, 0));
    assert_eq!(range_from_vfs_file("\n\n\n"), range(0, 0, 3, 0));
    assert_eq!(range_from_vfs_file("fn main() {\n    println!();\n}"), range(0, 0, 2, 1));
}

#[test]
fn range_of_a_file_counts_characters_not_bytes() {
    assert_eq!(range_from_vfs_file("é\n日本語"), range(0, 0, 1, 3));
    assert_eq!(range_from_vfs_file("a\r\nb"), range(0, 0, 1, 1));
}

#[test]
fn definitions_have_their_symbol_kinds() {
    let table = [
        (DefKind::Enum, SymbolKind::Enum),
        (DefKind::TupleVariant, SymbolKind::Constant),
        (DefKind::StructVariant, SymbolKind::Class),
        (DefKind::Tuple, SymbolKind::Array),
        (DefKind::Struct, SymbolKind::Class),
        (DefKind::Union, SymbolKind::Class),
        (DefKind::Trait, SymbolKind::Interface),
        (DefKind::Function, SymbolKind::Function),
        (DefKind::Method, SymbolKind::Function),
        (DefKind::Macro, SymbolKind::Function),
        (DefKind::Mod, SymbolKind::Module),
        (DefKind::Type, SymbolKind::Interface),
        (DefKind::ExternType, SymbolKind::Interface),
        (DefKind::Local, SymbolKind::Variable),
        (DefKind::Static, SymbolKind::Variable),
        (DefKind::Const, SymbolKind::Variable),
        (DefKind::Field, SymbolKind::Variable),
    ];
    for (def, symbol) in table {
        assert_eq!(source_kind_from_def_kind(def), symbol);
    }
}

#[test]
fn matches_have_their_completion_kinds() {
    let table = [
        (MatchType::Crate, CompletionItemKind::Module),
        (MatchType::Module, CompletionItemKind::Module),
        (MatchType::Struct, CompletionItemKind::Class),
        (MatchType::Enum, CompletionItemKind::Enum),
        (MatchType::StructField, CompletionItemKind::Field),
        (MatchType::EnumVariant, CompletionItemKind::Field),
        (MatchType::Macro, CompletionItemKind::Function),
        (MatchType::Function, CompletionItemKind::Function),
        (MatchType::FnArg, CompletionItemKind::Function),
        (MatchType::Impl, CompletionItemKind::Function),
        (MatchType::Type, CompletionItemKind::Interface),
        (MatchType::Trait, CompletionItemKind::Interface),
        (MatchType::TraitImpl, CompletionItemKind::Interface),
        (MatchType::Let, CompletionItemKind::Variable),
        (MatchType::IfLet, CompletionItemKind::Variable),
        (MatchType::WhileLet, CompletionItemKind::Variable),
        (MatchType::For, CompletionItemKind::Variable),
        (MatchType::MatchArm, CompletionItemKind::Variable),
        (MatchType::Const, CompletionItemKind::Variable),
        (MatchType::Static, CompletionItemKind::Variable),
        (MatchType::Builtin, CompletionItemKind::Keyword),
    ];
    for (match_type, kind) in table {
        assert_eq!(completion_kind_from_match_type(match_type), kind);
    }
}

#[test]
fn match_becomes_a_completion() {
    let m = Match {
        matchstr: "push".to_string(),
        contextstr: "pub fn push(&mut self, value: T)".to_string(),
        mtype: MatchType::Function,
    };
    assert_eq!(
        completion_item_from_racer_match(m),
        CompletionItem {
            label: "push".to_string(),
            kind: Some(CompletionItemKind::Function),
            detail: Some("pub fn push(&mut self, value: T)".to_string()),
        }
    );
    assert_eq!(
        CompletionItem::new_simple("a".to_string(), "b".to_string()),
        CompletionItem { label: "a".to_string(), kind: None, detail: Some("b".to_string()) }
    );
}

#[test]
fn options_are_read_from_an_object() {
    let read = |text: &str| InitializationOptions::from_json(&parse(text).unwrap());
    assert_eq!(read("{}"), Some(InitializationOptions { omit_init_build: false }));
    assert_eq!(read("{\"omitInitBuild\":true}"), Some(InitializationOptions { omit_init_build: true }));
    assert_eq!(read("{\"omitInitBuild\":false}"), Some(InitializationOptions { omit_init_build: false }));
    assert_eq!(
        read("{\"other\":1,\"omitInitBuild\":true}"),
        Some(InitializationOptions { omit_init_build: true })
    );
    assert_eq!(read("{\"omitInitBuild\":1}"), None);
    assert_eq!(read("{\"omitInitBuild\":null}"), None);
}

#[test]
fn options_are_read_from_an_array() {
    let read = |text: &str| InitializationOptions::from_json(&parse(text).unwrap());
    assert_eq!(read("[]"), Some(InitializationOptions { omit_init_build: false }));
    assert_eq!(read("[true]"), Some(InitializationOptions { omit_init_build: true }));
    assert_eq!(read("[1]"), None);
    assert_eq!(read("[true, false]"), None);
}

#[test]
fn options_are_read_from_nothing_else() {
    let read = |text: &str| InitializationOptions::from_json(&parse(text).unwrap());
    assert_eq!(read("null"), None);
    assert_eq!(read("true"), None);
    assert_eq!(read("\"omitInitBuild\""), None);
    assert_eq!(InitializationOptions::default(), InitializationOptions { omit_init_build: false });
}

#[test]
fn notification_message_is_made_and_written() {
    let message = NotificationMessage::new(NOTIFICATION_BUILD_BEGIN, None);
    assert_eq!(message.jsonrpc, Version::V2);
    assert_eq!(message.method, "rustDocument/beginBuild");
    assert_eq!(message.params, None);
    assert_eq!(
        message.to_string(),
        "{\"jsonrpc\":\"2.0\",\"method\":\"rustDocument/beginBuild\",\"params\":null}"
    );
    let message = NotificationMessage::new("textDocument/publishDiagnostics", parse("{\"uri\":\"file:///a\",\"diagnostics\":[]}"));
    let json = message.to_json();
    assert_eq!(json.get("jsonrpc"), Some(&JsonValue::String("2.0".to_string())));
    assert_eq!(json.get("method"), Some(&JsonValue::String("textDocument/publishDiagnostics".to_string())));
    assert_eq!(json.get("params"), parse("{\"uri\":\"file:///a\",\"diagnostics\":[]}").as_ref());
}

#[test]
fn request_message_is_made_and_written() {
    let message = RequestMessage::new(3, "workspace/applyEdit".to_string(), parse("{\"a\":[1]}").unwrap());
    assert_eq!(message.jsonrpc, Version::V2);
    assert_eq!(message.id, 3);
    assert_eq!(message.method, "workspace/applyEdit");
    assert_eq!(
        message.to_string(),
        "{\"id\":3,\"jsonrpc\":\"2.0\",\"method\":\"workspace/applyEdit\",\"params\":{\"a\":[1]}}"
    );
    let json = message.to_json();
    assert_eq!(json.get("params"), parse("{\"a\":[1]}").as_ref());
    let other = RequestMessage::new(4, "m".to_string(), 17u8);
    assert_eq!(other.params, 17);
}

#[test]
fn initialize_params_are_read_from_json() {
    let read = |text: &str| InitializeParams::from_json(&parse(text).unwrap());
    assert_eq!(
        read("{}"),
        Some(InitializeParams {
            process_id: None,
            root_path: None,
            root_uri: None,
            initialization_options: None,
        })
    );
    assert_eq!(
        read("{\"processId\":12,\"rootPath\":\"/a\",\"rootUri\":\"file:///b\",\"initializationOptions\":[true],\"capabilities\":{}}"),
        Some(InitializeParams {
            process_id: Some(12),
            root_path: Some("/a".to_string()),
            root_uri: Some("file:///b".to_string()),
            initialization_options: parse("[true]"),
        })
    );
    assert_eq!(
        read("{\"processId\":null,\"rootPath\":null,\"rootUri\":null,\"initializationOptions\":null}"),
        Some(InitializeParams {
            process_id: None,
            root_path: None,
            root_uri: None,
            initialization_options: None,
        })
    );
}

#[test]
fn initialize_params_of_the_wrong_kind_are_refused() {
    let read = |text: &str| InitializeParams::from_json(&parse(text).unwrap());
    assert_eq!(read("null"), None);
    assert_eq!(read("[]"), None);
    assert_eq!(read("{\"processId\":\"12\"}"), None);
    assert_eq!(read("{\"processId\":-1}"), None);
    assert_eq!(read("{\"rootPath\":1}"), None);
    assert_eq!(read("{\"rootUri\":1}"), None);
    assert_eq!(read("{\"rootUri\":\"/no/uri\"}"), None);
}

#[test]
fn initialize_params_are_written_and_read_back() {
    let params = InitializeParams {
        process_id: Some(4),
        root_path: Some("/w".to_string()),
        root_uri: Some("file:///w".to_string()),
        initialization_options: parse("{\"omitInitBuild\":true}"),
    };
    assert_eq!(
        render(&params.to_json()),
        "{\"initializationOptions\":{\"omitInitBuild\":true},\"processId\":4,\"rootPath\":\"/w\",\"rootUri\":\"file:///w\"}"
    );
    assert_eq!(InitializeParams::from_json(&params.to_json()), Some(params));
    let none = InitializeParams {
        process_id: None,
        root_path: None,
        root_uri: None,
        initialization_options: None,
    };
    assert_eq!(
        render(&none.to_json()),
        "{\"initializationOptions\":null,\"processId\":null,\"rootPath\":null,\"rootUri\":null}"
    );
}

#[test]
fn capabilities_are_written_under_their_protocol_names() {
    let capabilities = ServerCapabilities {
        text_document_sync: Some(TextDocumentSyncKind::Full),
        hover_provider: None,
        completion_provider: Some(CompletionOptions {
            resolve_provider: None,
            trigger_characters: vec![],
        }),
        signature_help_provider: Some(SignatureHelpOptions {
            trigger_characters: vec!["(".to_string()],
        }),
        definition_provider: Some(false),
        references_provider: None,
        document_highlight_provider: None,
        document_symbol_provider: None,
        workspace_symbol_provider: None,
        code_action_provider: None,
        code_lens_provider: Some(CodeLensOptions { resolve_provider: Some(true) }),
        document_formatting_provider: None,
        document_range_formatting_provider: None,
        document_on_type_formatting_provider: Some(DocumentOnTypeFormattingOptions {
            first_trigger_character: "}".to_string(),
            more_trigger_character: vec![";".to_string()],
        }),
        rename_provider: None,
        execute_command_provider: Some(ExecuteCommandOptions { commands: vec![] }),
    };
    let result = InitializeResult { capabilities };
    assert_eq!(
        render(&result.to_json()),
        "{\"capabilities\":{\
         \"codeLensProvider\":{\"resolveProvider\":true},\
         \"completionProvider\":{\"triggerCharacters\":[]},\
         \"definitionProvider\":false,\
         \"documentOnTypeFormattingProvider\":{\"firstTriggerCharacter\":\"}\",\"moreTriggerCharacter\":[\";\"]},\
         \"executeCommandProvider\":{\"commands\":[]},\
         \"signatureHelpProvider\":{\"triggerCharacters\":[\"(\"]},\
         \"textDocumentSync\":1}}"
    );
    assert_eq!(TextDocumentSyncKind::Off.number(), 0);
    assert_eq!(TextDocumentSyncKind::Full.number(), 1);
    assert_eq!(TextDocumentSyncKind::Incremental.number(), 2);
}
