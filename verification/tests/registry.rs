use rls::server::registry::{entry, lookup, REGISTERED};
use rls::server::{Method, Role};

const NAMES: [(&str, Method, Role); 25] = [
    ("exit", Method::Exit, Role::Notification),
    ("initialized", Method::Initialized, Role::Notification),
    ("textDocument/didOpen", Method::DidOpen, Role::Notification),
    ("textDocument/didChange", Method::DidChange, Role::Notification),
    ("textDocument/didSave", Method::DidSave, Role::Notification),
    ("workspace/didChangeConfiguration", Method::DidChangeConfiguration, Role::Notification),
    ("workspace/didChangeWatchedFiles", Method::DidChangeWatchedFiles, Role::Notification),
    ("$/cancelRequest", Method::Cancel, Role::Notification),
    ("shutdown", Method::Shutdown, Role::Request),
    ("initialize", Method::Initialize, Role::Request),
    ("textDocument/definition", Method::Definition, Role::Request),
    ("textDocument/references", Method::References, Role::Request),
    ("textDocument/completion", Method::Completion, Role::Request),
    ("completionItem/resolve", Method::ResolveCompletion, Role::Request),
    ("textDocument/rename", Method::Rename, Role::Request),
    ("textDocument/documentHighlight", Method::DocumentHighlight, Role::Request),
    ("workspace/executeCommand", Method::ExecuteCommand, Role::Request),
    ("textDocument/codeAction", Method::CodeAction, Role::Request),
    ("rustDocument/implementations", Method::FindImpls, Role::Request),
    ("rustWorkspace/deglob", Method::Deglob, Role::Request),
    ("textDocument/documentSymbol", Method::Symbols, Role::Request),
    ("workspace/symbol", Method::WorkspaceSymbol, Role::Request),
    ("textDocument/formatting", Method::Formatting, Role::Request),
    ("textDocument/rangeFormatting", Method::RangeFormatting, Role::Request),
    ("textDocument/hover", Method::Hover, Role::Request),
];

#[test]
fn every_method_is_found_under_its_name() {
    for (name, method, _) in NAMES {
        assert_eq!(lookup(name), Some(method));
        assert_eq!(method.name(), name);
    }
}

#[test]
fn every_method_has_its_role() {
    for (_, method, role) in NAMES {
        assert_eq!(method.role(), role);
    }
}

#[test]
fn registry_holds_every_method_in_order() {
    assert_eq!(REGISTERED, 25);
    for (i, (_, method, _)) in NAMES.iter().enumerate() {
        assert_eq!(entry(i), *method);
    }
}

#[test]
fn unknown_names_name_no_method() {
    assert_eq!(lookup(""), None);
    assert_eq!(lookup("Exit"), None);
    assert_eq!(lookup("exit "), None);
    assert_eq!(lookup("textDocument/hove"), None);
    assert_eq!(lookup("textDocument/hoverr"), None);
    assert_eq!(lookup("textDocument/signatureHelp"), None);
}
