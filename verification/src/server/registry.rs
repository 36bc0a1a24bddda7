//! The registry: the closed, ordered table of the methods that the server
//! knows, each with the role it plays.

use crate::json::str_eq;
use vstd::prelude::*;

verus! {

/// The role of a method: a method is a request or a notification, never
/// both.
#[derive(Debug, Clone, Copy, PartialEq, Eq, Structural)]
pub enum Role {
    /// Answered with one response, under the request's id.
    Request,
    /// Never answered.
    Notification,
}

/// A method that the server knows.
#[derive(Debug, Clone, Copy, PartialEq, Eq, Structural)]
pub enum Method {
    /// `exit`: notification that it is time for the server to exit its process.
    Exit,
    /// `initialized`: the client has taken in the result of `initialize`.
    Initialized,
    /// `textDocument/didOpen`: a document was opened.
    DidOpen,
    /// `textDocument/didChange`: a document was changed.
    DidChange,
    /// `textDocument/didSave`: a document was saved.
    DidSave,
    /// `workspace/didChangeConfiguration`: the client's settings changed.
    DidChangeConfiguration,
    /// `workspace/didChangeWatchedFiles`: watched files changed on disk.
    DidChangeWatchedFiles,
    /// `$/cancelRequest`: the client no longer waits for a request.
    Cancel,
    /// `shutdown`: shut down, but do not exit yet.
    Shutdown,
    /// `initialize`: initialize the server.
    Initialize,
    /// `textDocument/definition`: where a symbol is defined.
    Definition,
    /// `textDocument/references`: where a symbol is used.
    References,
    /// `textDocument/completion`: completions at a position.
    Completion,
    /// `completionItem/resolve`: more about one completion.
    ResolveCompletion,
    /// `textDocument/rename`: rename a symbol.
    Rename,
    /// `textDocument/documentHighlight`: highlights for a symbol.
    DocumentHighlight,
    /// `workspace/executeCommand`: run a command of the server.
    ExecuteCommand,
    /// `textDocument/codeAction`: actions on a range of code.
    CodeAction,
    /// `rustDocument/implementations`: the implementations of a trait or type.
    FindImpls,
    /// `rustWorkspace/deglob`: replace a glob import by what it brings in.
    Deglob,
    /// `textDocument/documentSymbol`: the symbols of a document.
    Symbols,
    /// `workspace/symbol`: the symbols of the workspace.
    WorkspaceSymbol,
    /// `textDocument/formatting`: format a document.
    Formatting,
    /// `textDocument/rangeFormatting`: format a range of a document.
    RangeFormatting,
    /// `textDocument/hover`: what to show on hover.
    Hover,
}

/// The number of methods in the registry.
pub const REGISTERED: usize = 25;

impl Method {
    /// The method string that identifies this method on the wire.
    pub open spec fn name_of(self) -> Seq<char> {
        match self {
            Method::Exit => "exit"@,
            Method::Initialized => "initialized"@,
            Method::DidOpen => "textDocument/didOpen"@,
            Method::DidChange => "textDocument/didChange"@,
            Method::DidSave => "textDocument/didSave"@,
            Method::DidChangeConfiguration => "workspace/didChangeConfiguration"@,
            Method::DidChangeWatchedFiles => "workspace/didChangeWatchedFiles"@,
            Method::Cancel => "$/cancelRequest"@,
            Method::Shutdown => "shutdown"@,
            Method::Initialize => "initialize"@,
            Method::Definition => "textDocument/definition"@,
            Method::References => "textDocument/references"@,
            Method::Completion => "textDocument/completion"@,
            Method::ResolveCompletion => "completionItem/resolve"@,
            Method::Rename => "textDocument/rename"@,
            Method::DocumentHighlight => "textDocument/documentHighlight"@,
            Method::ExecuteCommand => "workspace/executeCommand"@,
            Method::CodeAction => "textDocument/codeAction"@,
            Method::FindImpls => "rustDocument/implementations"@,
            Method::Deglob => "rustWorkspace/deglob"@,
            Method::Symbols => "textDocument/documentSymbol"@,
            Method::WorkspaceSymbol => "workspace/symbol"@,
            Method::Formatting => "textDocument/formatting"@,
            Method::RangeFormatting => "textDocument/rangeFormatting"@,
            Method::Hover => "textDocument/hover"@,
        }
    }

    /// The role this method plays.
    pub open spec fn role_of(self) -> Role {
        match self {
            Method::Exit => Role::Notification,
            Method::Initialized => Role::Notification,
            Method::DidOpen => Role::Notification,
            Method::DidChange => Role::Notification,
            Method::DidSave => Role::Notification,
            Method::DidChangeConfiguration => Role::Notification,
            Method::DidChangeWatchedFiles => Role::Notification,
            Method::Cancel => Role::Notification,
            _ => Role::Request,
        }
    }

    /// The place of this method in the registry.
    pub open spec fn index_of(self) -> int {
        match self {
            Method::Exit => 0,
            Method::Initialized => 1,
            Method::DidOpen => 2,
            Method::DidChange => 3,
            Method::DidSave => 4,
            Method::DidChangeConfiguration => 5,
            Method::DidChangeWatchedFiles => 6,
            Method::Cancel => 7,
            Method::Shutdown => 8,
            Method::Initialize => 9,
            Method::Definition => 10,
            Method::References => 11,
            Method::Completion => 12,
            Method::ResolveCompletion => 13,
            Method::Rename => 14,
            Method::DocumentHighlight => 15,
            Method::ExecuteCommand => 16,
            Method::CodeAction => 17,
            Method::FindImpls => 18,
            Method::Deglob => 19,
            Method::Symbols => 20,
            Method::WorkspaceSymbol => 21,
            Method::Formatting => 22,
            Method::RangeFormatting => 23,
            Method::Hover => 24,
        }
    }

    /// The method string that identifies this method on the wire.
    pub fn name(&self) -> (r: &'static str)
        ensures
            r@ == self.name_of(),
    {
        match self {
            Method::Exit => "exit",
            Method::Initialized => "initialized",
            Method::DidOpen => "textDocument/didOpen",
            Method::DidChange => "textDocument/didChange",
            Method::DidSave => "textDocument/didSave",
            Method::DidChangeConfiguration => "workspace/didChangeConfiguration",
            Method::DidChangeWatchedFiles => "workspace/didChangeWatchedFiles",
            Method::Cancel => "$/cancelRequest",
            Method::Shutdown => "shutdown",
            Method::Initialize => "initialize",
            Method::Definition => "textDocument/definition",
            Method::References => "textDocument/references",
            Method::Completion => "textDocument/completion",
            Method::ResolveCompletion => "completionItem/resolve",
            Method::Rename => "textDocument/rename",
            Method::DocumentHighlight => "textDocument/documentHighlight",
            Method::ExecuteCommand => "workspace/executeCommand",
            Method::CodeAction => "textDocument/codeAction",
            Method::FindImpls => "rustDocument/implementations",
            Method::Deglob => "rustWorkspace/deglob",
            Method::Symbols => "textDocument/documentSymbol",
            Method::WorkspaceSymbol => "workspace/symbol",
            Method::Formatting => "textDocument/formatting",
            Method::RangeFormatting => "textDocument/rangeFormatting",
            Method::Hover => "textDocument/hover",
        }
    }

    /// The role this method plays.
    pub fn role(&self) -> (r: Role)
        ensures
            r == self.role_of(),
    {
        match self {
            Method::Exit => Role::Notification,
            Method::Initialized => Role::Notification,
            Method::DidOpen => Role::Notification,
            Method::DidChange => Role::Notification,
            Method::DidSave => Role::Notification,
            Method::DidChangeConfiguration => Role::Notification,
            Method::DidChangeWatchedFiles => Role::Notification,
            Method::Cancel => Role::Notification,
            _ => Role::Request,
        }
    }
}

/// The registry: every method once, in the order in which a name is looked
/// up.
pub open spec fn registered() -> Seq<Method> {
    seq![
        Method::Exit,
        Method::Initialized,
        Method::DidOpen,
        Method::DidChange,
        Method::DidSave,
        Method::DidChangeConfiguration,
        Method::DidChangeWatchedFiles,
        Method::Cancel,
        Method::Shutdown,
        Method::Initialize,
        Method::Definition,
        Method::References,
        Method::Completion,
        Method::ResolveCompletion,
        Method::Rename,
        Method::DocumentHighlight,
        Method::ExecuteCommand,
        Method::CodeAction,
        Method::FindImpls,
        Method::Deglob,
        Method::Symbols,
        Method::WorkspaceSymbol,
        Method::Formatting,
        Method::RangeFormatting,
        Method::Hover,
    ]
}

/// The method at place `i` of the registry.
pub fn entry(i: usize) -> (m: Method)
    requires
        i < REGISTERED,
    ensures
        m == registered()[i as int],
        m.index_of() == i,
{
    match i {
        0 => Method::Exit,
        1 => Method::Initialized,
        2 => Method::DidOpen,
        3 => Method::DidChange,
        4 => Method::DidSave,
        5 => Method::DidChangeConfiguration,
        6 => Method::DidChangeWatchedFiles,
        7 => Method::Cancel,
        8 => Method::Shutdown,
        9 => Method::Initialize,
        10 => Method::Definition,
        11 => Method::References,
        12 => Method::Completion,
        13 => Method::ResolveCompletion,
        14 => Method::Rename,
        15 => Method::DocumentHighlight,
        16 => Method::ExecuteCommand,
        17 => Method::CodeAction,
        18 => Method::FindImpls,
        19 => Method::Deglob,
        20 => Method::Symbols,
        21 => Method::WorkspaceSymbol,
        22 => Method::Formatting,
        23 => Method::RangeFormatting,
        _ => Method::Hover,
    }
}

/// The place of the first method at or after `from` whose name is `name`.
pub open spec fn first_named(name: Seq<char>, from: int) -> Option<int>
    decreases REGISTERED - from,
{
    if from < 0 || from >= REGISTERED {
        None
    } else if registered()[from].name_of() == name {
        Some(from)
    } else {
        first_named(name, from + 1)
    }
}

/// The method that `name` names: the first one in the registry that carries
/// the name; `None` where the registry has none.
pub open spec fn method_named(name: Seq<char>) -> Option<Method> {
    match first_named(name, 0) {
        Some(i) => Some(registered()[i]),
        None => None,
    }
}

/// Looks a method up by name, going through the registry from the front.
pub fn lookup(name: &str) -> (r: Option<Method>)
    ensures
        r == method_named(name@),
{
    let mut i: usize = 0;
    while i < REGISTERED
        invariant
            i <= REGISTERED,
            first_named(name@, 0) == first_named(name@, i as int),
        decreases REGISTERED - i,
    {
        let m = entry(i);
        if str_eq(m.name(), name) {
            return Some(m);
        }
        i += 1;
    }
    None
}

/// Two methods with one name are one method: no name stands twice in the
/// registry.
pub proof fn lemma_names_distinct(a: Method, b: Method)
    requires
        a.name_of() == b.name_of(),
    ensures
        a == b,
{
    reveal_strlit("exit");
    reveal_strlit("initialized");
    reveal_strlit("textDocument/didOpen");
    reveal_strlit("textDocument/didChange");
    reveal_strlit("textDocument/didSave");
    reveal_strlit("workspace/didChangeConfiguration");
    reveal_strlit("workspace/didChangeWatchedFiles");
    reveal_strlit("$/cancelRequest");
    reveal_strlit("shutdown");
    reveal_strlit("initialize");
    reveal_strlit("textDocument/definition");
    reveal_strlit("textDocument/references");
    reveal_strlit("textDocument/completion");
    reveal_strlit("completionItem/resolve");
    reveal_strlit("textDocument/rename");
    reveal_strlit("textDocument/documentHighlight");
    reveal_strlit("workspace/executeCommand");
    reveal_strlit("textDocument/codeAction");
    reveal_strlit("rustDocument/implementations");
    reveal_strlit("rustWorkspace/deglob");
    reveal_strlit("textDocument/documentSymbol");
    reveal_strlit("workspace/symbol");
    reveal_strlit("textDocument/formatting");
    reveal_strlit("textDocument/rangeFormatting");
    reveal_strlit("textDocument/hover");
    // The length of a name, its first character and its eighteenth tell any
    // two methods apart.
    let (x, y) = (a.name_of(), b.name_of());
    assert(x.len() == y.len() && x[0] == y[0] && x[17] == y[17]);
}

/// Every method stands in the registry, at its own place.
pub proof fn lemma_registered(m: Method)
    ensures
        registered().len() == REGISTERED,
        0 <= m.index_of() < REGISTERED,
        registered()[m.index_of()] == m,
{
}

/// What `first_named` finds lies in the registry and carries the name; it
/// finds nothing only where no method from `from` on carries the name.
pub proof fn lemma_first_named(name: Seq<char>, from: int)
    requires
        0 <= from,
    ensures
        match first_named(name, from) {
            Some(i) => from <= i < REGISTERED && registered()[i].name_of() == name,
            None => forall|j: int| from <= j < REGISTERED ==> registered()[j].name_of() != name,
        },
    decreases REGISTERED - from,
{
    if from < REGISTERED && registered()[from].name_of() != name {
        lemma_first_named(name, from + 1);
    }
}

/// A method is found under its own name, and under no other: the registry
/// maps each name to at most one method, so the order in which it is
/// searched decides nothing.
pub proof fn lemma_lookup(name: Seq<char>, m: Method)
    ensures
        method_named(name) == Some(m) <==> m.name_of() == name,
{
    lemma_first_named(name, 0);
    lemma_registered(m);
    match first_named(name, 0) {
        Some(i) => {
            if m.name_of() == name {
                lemma_names_distinct(registered()[i], m);
            }
        },
        None => {},
    }
}

/// A method that is a request is no notification, and the other way round.
pub proof fn lemma_one_role(m: Method)
    ensures
        (m.role_of() == Role::Request) != (m.role_of() == Role::Notification),
{
}

} // verus!
